//! The exchange's wire records: their fields, how each is read from a JSON
//! value and written back. Member names follow the exchange (`timeReg`,
//! `tagName`, `type`).
use vstd::prelude::*;
use crate::json::{Json, JsonV, field};
use crate::members::{
    bool_entry, bool_member, int_entry, int_member, is_object, is_object_value, members_view,
    object_of, opt_int, opt_int_entry, opt_int_member, opt_str, opt_str_entry, opt_str_member,
    opt_value_entry, push_bool, push_int, push_opt_int, push_opt_str, push_opt_value, push_str,
    push_value, req_bool, req_int, req_str, str_entry, str_member, text_opt, value_entry,
    strs_member, strs_entry, texts_view, req_strs, push_strs, array_of,
};

verus! {

pub open spec fn opt_i64(o: Option<int>) -> Option<i64> {
    match o {
        Some(v) => Some(v as i64),
        None => None,
    }
}

pub open spec fn opt_i32(o: Option<int>) -> Option<i32> {
    match o {
        Some(v) => Some(v as i32),
        None => None,
    }
}

pub open spec fn opt_i64_int(o: Option<i64>) -> Option<int> {
    match o {
        Some(v) => Some(v as int),
        None => None,
    }
}

pub open spec fn opt_i32_int(o: Option<i32>) -> Option<int> {
    match o {
        Some(v) => Some(v as int),
        None => None,
    }
}

/// An on-chain transaction of one leg of an order; every field may be missing while it is pending.
#[derive(Debug, Clone, PartialEq, Eq)]
pub struct Transaction {
    pub id: Option<String>,
    pub amount: Option<String>,
    pub fee: Option<String>,
    pub ccyfee: Option<String>,
    pub time_reg: Option<i64>,
    pub time_block: Option<i64>,
    pub confirmations: Option<String>,
}

/// The mathematical form of a [`Transaction`].
pub struct TransactionV {
    pub id: Option<Seq<char>>,
    pub amount: Option<Seq<char>>,
    pub fee: Option<Seq<char>>,
    pub ccyfee: Option<Seq<char>>,
    pub time_reg: Option<i64>,
    pub time_block: Option<i64>,
    pub confirmations: Option<Seq<char>>,
}

impl View for Transaction {
    type V = TransactionV;

    open spec fn view(&self) -> TransactionV {
        TransactionV {
            id: text_opt(self.id),
            amount: text_opt(self.amount),
            fee: text_opt(self.fee),
            ccyfee: text_opt(self.ccyfee),
            time_reg: self.time_reg,
            time_block: self.time_block,
            confirmations: text_opt(self.confirmations),
        }
    }
}

/// What a JSON value decodes to as a [`Transaction`]: an object whose members
/// have the expected kinds; absent or null optional members decode as absent.
pub open spec fn transaction_of(j: JsonV) -> Option<TransactionV> {
    if is_object(j)
        && opt_str_member(j, "id"@) is Some
        && opt_str_member(j, "amount"@) is Some
        && opt_str_member(j, "fee"@) is Some
        && opt_str_member(j, "ccyfee"@) is Some
        && opt_int_member(j, "timeReg"@, i64::MIN as int, i64::MAX as int) is Some
        && opt_int_member(j, "timeBlock"@, i64::MIN as int, i64::MAX as int) is Some
        && opt_str_member(j, "confirmations"@) is Some {
        Some(
            TransactionV {
                id: opt_str_member(j, "id"@)->Some_0,
                amount: opt_str_member(j, "amount"@)->Some_0,
                fee: opt_str_member(j, "fee"@)->Some_0,
                ccyfee: opt_str_member(j, "ccyfee"@)->Some_0,
                time_reg: opt_i64(opt_int_member(j, "timeReg"@, i64::MIN as int, i64::MAX as int)->Some_0),
                time_block: opt_i64(opt_int_member(j, "timeBlock"@, i64::MIN as int, i64::MAX as int)->Some_0),
                confirmations: opt_str_member(j, "confirmations"@)->Some_0,
            },
        )
    } else {
        None
    }
}

/// The JSON object for a [`Transaction`]: every present member, absent ones left out.
pub open spec fn transaction_json(v: TransactionV) -> JsonV {
    JsonV::Object(
        opt_str_entry("id"@, v.id)
        + opt_str_entry("amount"@, v.amount)
        + opt_str_entry("fee"@, v.fee)
        + opt_str_entry("ccyfee"@, v.ccyfee)
        + opt_int_entry("timeReg"@, opt_i64_int(v.time_reg))
        + opt_int_entry("timeBlock"@, opt_i64_int(v.time_block))
        + opt_str_entry("confirmations"@, v.confirmations),
    )
}

impl Transaction {
    /// Decodes a [`Transaction`] from a JSON value.
    pub fn from_json(j: &Json) -> (r: Option<Transaction>)
        ensures
            match r {
                Some(x) => transaction_of(j@) == Some(x@),
                None => transaction_of(j@) is None,
            },
    {
        if !is_object_value(j) {
            return None;
        }
        let id = opt_str(j, "id")?;
        let amount = opt_str(j, "amount")?;
        let fee = opt_str(j, "fee")?;
        let ccyfee = opt_str(j, "ccyfee")?;
        let time_reg = opt_int(j, "timeReg", i64::MIN, i64::MAX)?;
        let time_block = opt_int(j, "timeBlock", i64::MIN, i64::MAX)?;
        let confirmations = opt_str(j, "confirmations")?;
        Some(Transaction { id, amount, fee, ccyfee, time_reg, time_block, confirmations })
    }

    /// The JSON object for this value: every present member, absent ones left out.
    pub fn to_json(&self) -> (r: Json)
        ensures
            r@ == transaction_json(self@),
    {
        let mut m: Vec<(String, Json)> = Vec::new();
        assert(members_view(m@) =~= Seq::empty());
        push_opt_str(&mut m, "id", &self.id);
        push_opt_str(&mut m, "amount", &self.amount);
        push_opt_str(&mut m, "fee", &self.fee);
        push_opt_str(&mut m, "ccyfee", &self.ccyfee);
        push_opt_int(&mut m, "timeReg", self.time_reg);
        push_opt_int(&mut m, "timeBlock", self.time_block);
        push_opt_str(&mut m, "confirmations", &self.confirmations);
        assert(JsonV::Object(members_view(m@)) =~= transaction_json(self@));
        object_of(m)
    }
}

/// An optional [`Transaction`] member: absent or null reads as absent.
pub open spec fn opt_transaction_member(j: JsonV, key: Seq<char>) -> Option<Option<TransactionV>> {
    match field(j, key) {
        None => Some(None),
        Some(JsonV::Null) => Some(None),
        Some(x) => match transaction_of(x) {
            Some(t) => Some(Some(t)),
            None => None,
        },
    }
}

/// The timing of an order, in seconds since the epoch; `left` counts the seconds before it expires.
#[derive(Debug, Clone, PartialEq, Eq)]
pub struct Time {
    pub reg: i64,
    pub start: Option<i64>,
    pub finish: Option<i64>,
    pub update: i64,
    pub expiration: i64,
    pub left: i32,
}

/// The mathematical form of a [`Time`].
pub struct TimeV {
    pub reg: i64,
    pub start: Option<i64>,
    pub finish: Option<i64>,
    pub update: i64,
    pub expiration: i64,
    pub left: i32,
}

impl View for Time {
    type V = TimeV;

    open spec fn view(&self) -> TimeV {
        TimeV {
            reg: self.reg,
            start: self.start,
            finish: self.finish,
            update: self.update,
            expiration: self.expiration,
            left: self.left,
        }
    }
}

/// What a JSON value decodes to as a [`Time`]: an object whose members
/// have the expected kinds; absent or null optional members decode as absent.
pub open spec fn time_of(j: JsonV) -> Option<TimeV> {
    if is_object(j)
        && int_member(j, "reg"@, i64::MIN as int, i64::MAX as int) is Some
        && opt_int_member(j, "start"@, i64::MIN as int, i64::MAX as int) is Some
        && opt_int_member(j, "finish"@, i64::MIN as int, i64::MAX as int) is Some
        && int_member(j, "update"@, i64::MIN as int, i64::MAX as int) is Some
        && int_member(j, "expiration"@, i64::MIN as int, i64::MAX as int) is Some
        && int_member(j, "left"@, i32::MIN as int, i32::MAX as int) is Some {
        Some(
            TimeV {
                reg: int_member(j, "reg"@, i64::MIN as int, i64::MAX as int)->Some_0 as i64,
                start: opt_i64(opt_int_member(j, "start"@, i64::MIN as int, i64::MAX as int)->Some_0),
                finish: opt_i64(opt_int_member(j, "finish"@, i64::MIN as int, i64::MAX as int)->Some_0),
                update: int_member(j, "update"@, i64::MIN as int, i64::MAX as int)->Some_0 as i64,
                expiration: int_member(j, "expiration"@, i64::MIN as int, i64::MAX as int)->Some_0 as i64,
                left: int_member(j, "left"@, i32::MIN as int, i32::MAX as int)->Some_0 as i32,
            },
        )
    } else {
        None
    }
}

/// The JSON object for a [`Time`]: every present member, absent ones left out.
pub open spec fn time_json(v: TimeV) -> JsonV {
    JsonV::Object(
        int_entry("reg"@, v.reg as int)
        + opt_int_entry("start"@, opt_i64_int(v.start))
        + opt_int_entry("finish"@, opt_i64_int(v.finish))
        + int_entry("update"@, v.update as int)
        + int_entry("expiration"@, v.expiration as int)
        + int_entry("left"@, v.left as int),
    )
}

impl Time {
    /// Decodes a [`Time`] from a JSON value.
    pub fn from_json(j: &Json) -> (r: Option<Time>)
        ensures
            match r {
                Some(x) => time_of(j@) == Some(x@),
                None => time_of(j@) is None,
            },
    {
        if !is_object_value(j) {
            return None;
        }
        let reg = req_int(j, "reg", i64::MIN, i64::MAX)?;
        let start = opt_int(j, "start", i64::MIN, i64::MAX)?;
        let finish = opt_int(j, "finish", i64::MIN, i64::MAX)?;
        let update = req_int(j, "update", i64::MIN, i64::MAX)?;
        let expiration = req_int(j, "expiration", i64::MIN, i64::MAX)?;
        let left = req_int(j, "left", i32::MIN as i64, i32::MAX as i64)? as i32;
        Some(Time { reg, start, finish, update, expiration, left })
    }

    /// The JSON object for this value: every present member, absent ones left out.
    pub fn to_json(&self) -> (r: Json)
        ensures
            r@ == time_json(self@),
    {
        let mut m: Vec<(String, Json)> = Vec::new();
        assert(members_view(m@) =~= Seq::empty());
        push_int(&mut m, "reg", self.reg);
        push_opt_int(&mut m, "start", self.start);
        push_opt_int(&mut m, "finish", self.finish);
        push_int(&mut m, "update", self.update);
        push_int(&mut m, "expiration", self.expiration);
        push_int(&mut m, "left", self.left as i64);
        assert(JsonV::Object(members_view(m@)) =~= time_json(self@));
        object_of(m)
    }
}
/// The emergency block of an order: the resolutions on offer, the one chosen, and whether the emergency recurred.
#[derive(Debug, Clone, PartialEq, Eq)]
pub struct Emergency {
    pub status: Vec<String>,
    pub choice: String,
    pub repeat: String,
}

/// The mathematical form of an [`Emergency`].
pub struct EmergencyV {
    pub status: Seq<Seq<char>>,
    pub choice: Seq<char>,
    pub repeat: Seq<char>,
}

impl View for Emergency {
    type V = EmergencyV;

    open spec fn view(&self) -> EmergencyV {
        EmergencyV {
            status: texts_view(self.status@),
            choice: self.choice@,
            repeat: self.repeat@,
        }
    }
}

/// What a JSON value decodes to as an [`Emergency`]: an object whose members
/// have the expected kinds; absent or null optional members decode as absent.
pub open spec fn emergency_of(j: JsonV) -> Option<EmergencyV> {
    if is_object(j)
        && strs_member(j, "status"@) is Some
        && str_member(j, "choice"@) is Some
        && str_member(j, "repeat"@) is Some {
        Some(
            EmergencyV {
                status: strs_member(j, "status"@)->Some_0,
                choice: str_member(j, "choice"@)->Some_0,
                repeat: str_member(j, "repeat"@)->Some_0,
            },
        )
    } else {
        None
    }
}

/// The JSON object for an [`Emergency`]: every present member, absent ones left out.
pub open spec fn emergency_json(v: EmergencyV) -> JsonV {
    JsonV::Object(
        strs_entry("status"@, v.status)
        + str_entry("choice"@, v.choice)
        + str_entry("repeat"@, v.repeat),
    )
}

impl Emergency {
    /// Decodes an [`Emergency`] from a JSON value.
    pub fn from_json(j: &Json) -> (r: Option<Emergency>)
        ensures
            match r {
                Some(x) => emergency_of(j@) == Some(x@),
                None => emergency_of(j@) is None,
            },
    {
        if !is_object_value(j) {
            return None;
        }
        let status = req_strs(j, "status")?;
        let choice = req_str(j, "choice")?;
        let repeat = req_str(j, "repeat")?;
        Some(Emergency { status, choice, repeat })
    }

    /// The JSON object for this value: every present member, absent ones left out.
    pub fn to_json(&self) -> (r: Json)
        ensures
            r@ == emergency_json(self@),
    {
        let mut m: Vec<(String, Json)> = Vec::new();
        assert(members_view(m@) =~= Seq::empty());
        push_strs(&mut m, "status", &self.status);
        push_str(&mut m, "choice", &self.choice);
        push_str(&mut m, "repeat", &self.repeat);
        assert(JsonV::Object(members_view(m@)) =~= emergency_json(self@));
        object_of(m)
    }
}
/// A currency the exchange lists, with its receive/send capabilities and display data.
#[derive(Debug, Clone, PartialEq, Eq)]
pub struct Currency {
    pub code: String,
    pub coin: String,
    pub network: String,
    pub name: String,
    pub recv: u8,
    pub send: u8,
    pub tag: Option<String>,
    pub logo: String,
    pub color: String,
    pub priority: u8,
}

/// The mathematical form of a [`Currency`].
pub struct CurrencyV {
    pub code: Seq<char>,
    pub coin: Seq<char>,
    pub network: Seq<char>,
    pub name: Seq<char>,
    pub recv: u8,
    pub send: u8,
    pub tag: Option<Seq<char>>,
    pub logo: Seq<char>,
    pub color: Seq<char>,
    pub priority: u8,
}

impl View for Currency {
    type V = CurrencyV;

    open spec fn view(&self) -> CurrencyV {
        CurrencyV {
            code: self.code@,
            coin: self.coin@,
            network: self.network@,
            name: self.name@,
            recv: self.recv,
            send: self.send,
            tag: text_opt(self.tag),
            logo: self.logo@,
            color: self.color@,
            priority: self.priority,
        }
    }
}

/// What a JSON value decodes to as a [`Currency`]: an object whose members
/// have the expected kinds; absent or null optional members decode as absent.
pub open spec fn currency_of(j: JsonV) -> Option<CurrencyV> {
    if is_object(j)
        && str_member(j, "code"@) is Some
        && str_member(j, "coin"@) is Some
        && str_member(j, "network"@) is Some
        && str_member(j, "name"@) is Some
        && int_member(j, "recv"@, 0, u8::MAX as int) is Some
        && int_member(j, "send"@, 0, u8::MAX as int) is Some
        && opt_str_member(j, "tag"@) is Some
        && str_member(j, "logo"@) is Some
        && str_member(j, "color"@) is Some
        && int_member(j, "priority"@, 0, u8::MAX as int) is Some {
        Some(
            CurrencyV {
                code: str_member(j, "code"@)->Some_0,
                coin: str_member(j, "coin"@)->Some_0,
                network: str_member(j, "network"@)->Some_0,
                name: str_member(j, "name"@)->Some_0,
                recv: int_member(j, "recv"@, 0, u8::MAX as int)->Some_0 as u8,
                send: int_member(j, "send"@, 0, u8::MAX as int)->Some_0 as u8,
                tag: opt_str_member(j, "tag"@)->Some_0,
                logo: str_member(j, "logo"@)->Some_0,
                color: str_member(j, "color"@)->Some_0,
                priority: int_member(j, "priority"@, 0, u8::MAX as int)->Some_0 as u8,
            },
        )
    } else {
        None
    }
}

/// The JSON object for a [`Currency`]: every present member, absent ones left out.
pub open spec fn currency_json(v: CurrencyV) -> JsonV {
    JsonV::Object(
        str_entry("code"@, v.code)
        + str_entry("coin"@, v.coin)
        + str_entry("network"@, v.network)
        + str_entry("name"@, v.name)
        + int_entry("recv"@, v.recv as int)
        + int_entry("send"@, v.send as int)
        + opt_str_entry("tag"@, v.tag)
        + str_entry("logo"@, v.logo)
        + str_entry("color"@, v.color)
        + int_entry("priority"@, v.priority as int),
    )
}

impl Currency {
    /// Decodes a [`Currency`] from a JSON value.
    pub fn from_json(j: &Json) -> (r: Option<Currency>)
        ensures
            match r {
                Some(x) => currency_of(j@) == Some(x@),
                None => currency_of(j@) is None,
            },
    {
        if !is_object_value(j) {
            return None;
        }
        let code = req_str(j, "code")?;
        let coin = req_str(j, "coin")?;
        let network = req_str(j, "network")?;
        let name = req_str(j, "name")?;
        let recv = req_int(j, "recv", 0, u8::MAX as i64)? as u8;
        let send = req_int(j, "send", 0, u8::MAX as i64)? as u8;
        let tag = opt_str(j, "tag")?;
        let logo = req_str(j, "logo")?;
        let color = req_str(j, "color")?;
        let priority = req_int(j, "priority", 0, u8::MAX as i64)? as u8;
        Some(Currency { code, coin, network, name, recv, send, tag, logo, color, priority })
    }

    /// The JSON object for this value: every present member, absent ones left out.
    pub fn to_json(&self) -> (r: Json)
        ensures
            r@ == currency_json(self@),
    {
        let mut m: Vec<(String, Json)> = Vec::new();
        assert(members_view(m@) =~= Seq::empty());
        push_str(&mut m, "code", &self.code);
        push_str(&mut m, "coin", &self.coin);
        push_str(&mut m, "network", &self.network);
        push_str(&mut m, "name", &self.name);
        push_int(&mut m, "recv", self.recv as i64);
        push_int(&mut m, "send", self.send as i64);
        push_opt_str(&mut m, "tag", &self.tag);
        push_str(&mut m, "logo", &self.logo);
        push_str(&mut m, "color", &self.color);
        push_int(&mut m, "priority", self.priority as i64);
        assert(JsonV::Object(members_view(m@)) =~= currency_json(self@));
        object_of(m)
    }
}
pub open spec fn currencies_view(v: Seq<Currency>) -> Seq<CurrencyV> {
    Seq::new(v.len(), |i: int| v[i]@)
}

/// What a JSON value decodes to as a list of currencies: an array whose
/// every element decodes.
pub open spec fn currency_list_of(j: JsonV) -> Option<Seq<CurrencyV>> {
    match j {
        JsonV::Array(a) => if forall|i: int| 0 <= i < a.len() ==> (currency_of(#[trigger] a[i]) is Some) {
            Some(Seq::new(a.len(), |i: int| currency_of(a[i])->Some_0))
        } else {
            None
        },
        _ => None,
    }
}

/// The JSON array for a list of currencies.
pub open spec fn currency_list_json(s: Seq<CurrencyV>) -> JsonV {
    JsonV::Array(Seq::new(s.len(), |i: int| currency_json(s[i])))
}

/// An optional list of currencies: absent or null reads as absent.
pub open spec fn opt_currency_list_member(j: JsonV, key: Seq<char>) -> Option<Option<Seq<CurrencyV>>> {
    match field(j, key) {
        None => Some(None),
        Some(JsonV::Null) => Some(None),
        Some(x) => match currency_list_of(x) {
            Some(s) => Some(Some(s)),
            None => None,
        },
    }
}

/// Decodes a list of currencies from a JSON array.
pub fn currency_list_from_json(j: &Json) -> (r: Option<Vec<Currency>>)
    ensures
        match r {
            Some(v) => currency_list_of(j@) == Some(currencies_view(v@)),
            None => currency_list_of(j@) is None,
        },
{
    match j {
        Json::Array(a) => {
            let ghost av = j@->Array_0;
            assert(forall|k: int| 0 <= k < a.len() ==> av[k] == #[trigger] a[k]@);
            let mut out: Vec<Currency> = Vec::new();
            let mut i: usize = 0;
            #[verifier::loop_isolation(false)]
            while i < a.len()
                invariant
                    0 <= i <= a.len(),
                    av.len() == a.len(),
                    out.len() == i,
                    forall|k: int| 0 <= k < i ==> currency_of(#[trigger] av[k]) == Some(out[k]@),
                decreases a.len() - i,
            {
                let ghost before = out@;
                match Currency::from_json(&a[i]) {
                    Some(x) => {
                        out.push(x);
                        assert(forall|k: int| 0 <= k < i ==> out[k] == before[k]);
                    },
                    None => {
                        assert(currency_of(av[i as int]) is None);
                        return None;
                    },
                }
                i = i + 1;
            }
            assert(currencies_view(out@) =~= Seq::new(av.len(), |i: int| currency_of(av[i])->Some_0));
            Some(out)
        },
        _ => None,
    }
}

/// The JSON array for a list of currencies.
pub fn currency_list_to_json(v: &Vec<Currency>) -> (r: Json)
    ensures
        r@ == currency_list_json(currencies_view(v@)),
{
    let mut items: Vec<Json> = Vec::new();
    let mut i: usize = 0;
    while i < v.len()
        invariant
            0 <= i <= v.len(),
            items.len() == i,
            forall|k: int| 0 <= k < i ==> (#[trigger] items[k])@ == currency_json(v[k]@),
        decreases v.len() - i,
    {
        items.push(v[i].to_json());
        i = i + 1;
    }
    let arr = array_of(items);
    assert(arr@->Array_0 =~= currency_list_json(currencies_view(v@))->Array_0);
    arr
}

/// One leg of a quote; amounts and rates are decimal text, never floats.
#[derive(Debug, Clone, PartialEq, Eq)]
pub struct Asset {
    pub code: String,
    pub network: String,
    pub coin: String,
    pub amount: String,
    pub rate: Option<String>,
    pub precision: Option<i32>,
    pub min: Option<String>,
    pub max: Option<String>,
    pub usd: Option<String>,
    pub btc: Option<String>,
}

/// The mathematical form of an [`Asset`].
pub struct AssetV {
    pub code: Seq<char>,
    pub network: Seq<char>,
    pub coin: Seq<char>,
    pub amount: Seq<char>,
    pub rate: Option<Seq<char>>,
    pub precision: Option<i32>,
    pub min: Option<Seq<char>>,
    pub max: Option<Seq<char>>,
    pub usd: Option<Seq<char>>,
    pub btc: Option<Seq<char>>,
}

impl View for Asset {
    type V = AssetV;

    open spec fn view(&self) -> AssetV {
        AssetV {
            code: self.code@,
            network: self.network@,
            coin: self.coin@,
            amount: self.amount@,
            rate: text_opt(self.rate),
            precision: self.precision,
            min: text_opt(self.min),
            max: text_opt(self.max),
            usd: text_opt(self.usd),
            btc: text_opt(self.btc),
        }
    }
}

/// What a JSON value decodes to as an [`Asset`]: an object whose members
/// have the expected kinds; absent or null optional members decode as absent.
pub open spec fn asset_of(j: JsonV) -> Option<AssetV> {
    if is_object(j)
        && str_member(j, "code"@) is Some
        && str_member(j, "network"@) is Some
        && str_member(j, "coin"@) is Some
        && str_member(j, "amount"@) is Some
        && opt_str_member(j, "rate"@) is Some
        && opt_int_member(j, "precision"@, i32::MIN as int, i32::MAX as int) is Some
        && opt_str_member(j, "min"@) is Some
        && opt_str_member(j, "max"@) is Some
        && opt_str_member(j, "usd"@) is Some
        && opt_str_member(j, "btc"@) is Some {
        Some(
            AssetV {
                code: str_member(j, "code"@)->Some_0,
                network: str_member(j, "network"@)->Some_0,
                coin: str_member(j, "coin"@)->Some_0,
                amount: str_member(j, "amount"@)->Some_0,
                rate: opt_str_member(j, "rate"@)->Some_0,
                precision: opt_i32(opt_int_member(j, "precision"@, i32::MIN as int, i32::MAX as int)->Some_0),
                min: opt_str_member(j, "min"@)->Some_0,
                max: opt_str_member(j, "max"@)->Some_0,
                usd: opt_str_member(j, "usd"@)->Some_0,
                btc: opt_str_member(j, "btc"@)->Some_0,
            },
        )
    } else {
        None
    }
}

/// The JSON object for an [`Asset`]: every present member, absent ones left out.
pub open spec fn asset_json(v: AssetV) -> JsonV {
    JsonV::Object(
        str_entry("code"@, v.code)
        + str_entry("network"@, v.network)
        + str_entry("coin"@, v.coin)
        + str_entry("amount"@, v.amount)
        + opt_str_entry("rate"@, v.rate)
        + opt_int_entry("precision"@, opt_i32_int(v.precision))
        + opt_str_entry("min"@, v.min)
        + opt_str_entry("max"@, v.max)
        + opt_str_entry("usd"@, v.usd)
        + opt_str_entry("btc"@, v.btc),
    )
}

impl Asset {
    /// Decodes an [`Asset`] from a JSON value.
    pub fn from_json(j: &Json) -> (r: Option<Asset>)
        ensures
            match r {
                Some(x) => asset_of(j@) == Some(x@),
                None => asset_of(j@) is None,
            },
    {
        if !is_object_value(j) {
            return None;
        }
        let code = req_str(j, "code")?;
        let network = req_str(j, "network")?;
        let coin = req_str(j, "coin")?;
        let amount = req_str(j, "amount")?;
        let rate = opt_str(j, "rate")?;
        let precision = match opt_int(j, "precision", i32::MIN as i64, i32::MAX as i64)? {
            Some(x) => Some(x as i32),
            None => None,
        };
        let min = opt_str(j, "min")?;
        let max = opt_str(j, "max")?;
        let usd = opt_str(j, "usd")?;
        let btc = opt_str(j, "btc")?;
        Some(Asset { code, network, coin, amount, rate, precision, min, max, usd, btc })
    }

    /// The JSON object for this value: every present member, absent ones left out.
    pub fn to_json(&self) -> (r: Json)
        ensures
            r@ == asset_json(self@),
    {
        let mut m: Vec<(String, Json)> = Vec::new();
        assert(members_view(m@) =~= Seq::empty());
        push_str(&mut m, "code", &self.code);
        push_str(&mut m, "network", &self.network);
        push_str(&mut m, "coin", &self.coin);
        push_str(&mut m, "amount", &self.amount);
        push_opt_str(&mut m, "rate", &self.rate);
        push_opt_int(
            &mut m,
            "precision",
            match self.precision {
                Some(x) => Some(x as i64),
                None => None,
            },
        );
        push_opt_str(&mut m, "min", &self.min);
        push_opt_str(&mut m, "max", &self.max);
        push_opt_str(&mut m, "usd", &self.usd);
        push_opt_str(&mut m, "btc", &self.btc);
        assert(JsonV::Object(members_view(m@)) =~= asset_json(self@));
        object_of(m)
    }
}
/// A currency code with its receive/send availability, as listed beside a quote.
#[derive(Debug, Clone, PartialEq, Eq)]
pub struct Ccy {
    pub code: String,
    pub recv: bool,
    pub send: bool,
}

/// The mathematical form of a [`Ccy`].
pub struct CcyV {
    pub code: Seq<char>,
    pub recv: bool,
    pub send: bool,
}

impl View for Ccy {
    type V = CcyV;

    open spec fn view(&self) -> CcyV {
        CcyV {
            code: self.code@,
            recv: self.recv,
            send: self.send,
        }
    }
}

/// What a JSON value decodes to as a [`Ccy`]: an object whose members
/// have the expected kinds; absent or null optional members decode as absent.
pub open spec fn ccy_of(j: JsonV) -> Option<CcyV> {
    if is_object(j)
        && str_member(j, "code"@) is Some
        && bool_member(j, "recv"@) is Some
        && bool_member(j, "send"@) is Some {
        Some(
            CcyV {
                code: str_member(j, "code"@)->Some_0,
                recv: bool_member(j, "recv"@)->Some_0,
                send: bool_member(j, "send"@)->Some_0,
            },
        )
    } else {
        None
    }
}

/// The JSON object for a [`Ccy`]: every present member, absent ones left out.
pub open spec fn ccy_json(v: CcyV) -> JsonV {
    JsonV::Object(
        str_entry("code"@, v.code)
        + bool_entry("recv"@, v.recv)
        + bool_entry("send"@, v.send),
    )
}

impl Ccy {
    /// Decodes a [`Ccy`] from a JSON value.
    pub fn from_json(j: &Json) -> (r: Option<Ccy>)
        ensures
            match r {
                Some(x) => ccy_of(j@) == Some(x@),
                None => ccy_of(j@) is None,
            },
    {
        if !is_object_value(j) {
            return None;
        }
        let code = req_str(j, "code")?;
        let recv = req_bool(j, "recv")?;
        let send = req_bool(j, "send")?;
        Some(Ccy { code, recv, send })
    }

    /// The JSON object for this value: every present member, absent ones left out.
    pub fn to_json(&self) -> (r: Json)
        ensures
            r@ == ccy_json(self@),
    {
        let mut m: Vec<(String, Json)> = Vec::new();
        assert(members_view(m@) =~= Seq::empty());
        push_str(&mut m, "code", &self.code);
        push_bool(&mut m, "recv", self.recv);
        push_bool(&mut m, "send", self.send);
        assert(JsonV::Object(members_view(m@)) =~= ccy_json(self@));
        object_of(m)
    }
}
pub open spec fn ccys_view(v: Seq<Ccy>) -> Seq<CcyV> {
    Seq::new(v.len(), |i: int| v[i]@)
}

/// What a JSON value decodes to as a list of currency codes: an array whose
/// every element decodes.
pub open spec fn ccy_list_of(j: JsonV) -> Option<Seq<CcyV>> {
    match j {
        JsonV::Array(a) => if forall|i: int| 0 <= i < a.len() ==> (ccy_of(#[trigger] a[i]) is Some) {
            Some(Seq::new(a.len(), |i: int| ccy_of(a[i])->Some_0))
        } else {
            None
        },
        _ => None,
    }
}

/// The JSON array for a list of currency codes.
pub open spec fn ccy_list_json(s: Seq<CcyV>) -> JsonV {
    JsonV::Array(Seq::new(s.len(), |i: int| ccy_json(s[i])))
}

/// An optional list of currency codes: absent or null reads as absent.
pub open spec fn opt_ccy_list_member(j: JsonV, key: Seq<char>) -> Option<Option<Seq<CcyV>>> {
    match field(j, key) {
        None => Some(None),
        Some(JsonV::Null) => Some(None),
        Some(x) => match ccy_list_of(x) {
            Some(s) => Some(Some(s)),
            None => None,
        },
    }
}

/// Decodes a list of currency codes from a JSON array.
pub fn ccy_list_from_json(j: &Json) -> (r: Option<Vec<Ccy>>)
    ensures
        match r {
            Some(v) => ccy_list_of(j@) == Some(ccys_view(v@)),
            None => ccy_list_of(j@) is None,
        },
{
    match j {
        Json::Array(a) => {
            let ghost av = j@->Array_0;
            assert(forall|k: int| 0 <= k < a.len() ==> av[k] == #[trigger] a[k]@);
            let mut out: Vec<Ccy> = Vec::new();
            let mut i: usize = 0;
            #[verifier::loop_isolation(false)]
            while i < a.len()
                invariant
                    0 <= i <= a.len(),
                    av.len() == a.len(),
                    out.len() == i,
                    forall|k: int| 0 <= k < i ==> ccy_of(#[trigger] av[k]) == Some(out[k]@),
                decreases a.len() - i,
            {
                let ghost before = out@;
                match Ccy::from_json(&a[i]) {
                    Some(x) => {
                        out.push(x);
                        assert(forall|k: int| 0 <= k < i ==> out[k] == before[k]);
                    },
                    None => {
                        assert(ccy_of(av[i as int]) is None);
                        return None;
                    },
                }
                i = i + 1;
            }
            assert(ccys_view(out@) =~= Seq::new(av.len(), |i: int| ccy_of(av[i])->Some_0));
            Some(out)
        },
        _ => None,
    }
}

/// The JSON array for a list of currency codes.
pub fn ccy_list_to_json(v: &Vec<Ccy>) -> (r: Json)
    ensures
        r@ == ccy_list_json(ccys_view(v@)),
{
    let mut items: Vec<Json> = Vec::new();
    let mut i: usize = 0;
    while i < v.len()
        invariant
            0 <= i <= v.len(),
            items.len() == i,
            forall|k: int| 0 <= k < i ==> (#[trigger] items[k])@ == ccy_json(v[k]@),
        decreases v.len() - i,
    {
        items.push(v[i].to_json());
        i = i + 1;
    }
    let arr = array_of(items);
    assert(arr@->Array_0 =~= ccy_list_json(ccys_view(v@))->Array_0);
    arr
}

/// The payload of a quote: its two legs, and the currency list when it was asked for.
#[derive(Debug, Clone, PartialEq, Eq)]
pub struct ExchangeRateResponseData {
    pub from: Asset,
    pub to: Asset,
    pub ccies: Option<Vec<Ccy>>,
}

/// The mathematical form of a [`ExchangeRateResponseData`].
pub struct ExchangeRateResponseDataV {
    pub from: AssetV,
    pub to: AssetV,
    pub ccies: Option<Seq<CcyV>>,
}

impl View for ExchangeRateResponseData {
    type V = ExchangeRateResponseDataV;

    open spec fn view(&self) -> ExchangeRateResponseDataV {
        ExchangeRateResponseDataV {
            from: self.from@,
            to: self.to@,
            ccies: match self.ccies { Some(v) => Some(ccys_view(v@)), None => None },
        }
    }
}

/// What a JSON value decodes to as a [`ExchangeRateResponseData`]: an object whose members
/// have the expected kinds; absent or null optional members decode as absent.
pub open spec fn exchange_rate_response_data_of(j: JsonV) -> Option<ExchangeRateResponseDataV> {
    if is_object(j)
        && field(j, "from"@) is Some
        && asset_of(field(j, "from"@)->Some_0) is Some
        && field(j, "to"@) is Some
        && asset_of(field(j, "to"@)->Some_0) is Some
        && opt_ccy_list_member(j, "ccies"@) is Some {
        Some(
            ExchangeRateResponseDataV {
                from: asset_of(field(j, "from"@)->Some_0)->Some_0,
                to: asset_of(field(j, "to"@)->Some_0)->Some_0,
                ccies: opt_ccy_list_member(j, "ccies"@)->Some_0,
            },
        )
    } else {
        None
    }
}

/// The JSON object for a [`ExchangeRateResponseData`]: every present member, absent ones left out.
pub open spec fn exchange_rate_response_data_json(v: ExchangeRateResponseDataV) -> JsonV {
    JsonV::Object(
        value_entry("from"@, asset_json(v.from))
        + value_entry("to"@, asset_json(v.to))
        + opt_value_entry("ccies"@, match v.ccies { Some(s) => Some(ccy_list_json(s)), None => None }),
    )
}

impl ExchangeRateResponseData {
    /// Decodes a [`ExchangeRateResponseData`] from a JSON value.
    pub fn from_json(j: &Json) -> (r: Option<ExchangeRateResponseData>)
        ensures
            match r {
                Some(x) => exchange_rate_response_data_of(j@) == Some(x@),
                None => exchange_rate_response_data_of(j@) is None,
            },
    {
        if !is_object_value(j) {
            return None;
        }
        let from = match j.get("from") {
            Some(x) => Asset::from_json(x)?,
            None => return None,
        };
        let to = match j.get("to") {
            Some(x) => Asset::from_json(x)?,
            None => return None,
        };
        let ccies = match j.get("ccies") {
            None => None,
            Some(Json::Null) => None,
            Some(x) => Some(ccy_list_from_json(x)?),
        };
        Some(ExchangeRateResponseData { from, to, ccies })
    }

    /// The JSON object for this value: every present member, absent ones left out.
    pub fn to_json(&self) -> (r: Json)
        ensures
            r@ == exchange_rate_response_data_json(self@),
    {
        let mut m: Vec<(String, Json)> = Vec::new();
        assert(members_view(m@) =~= Seq::empty());
        push_value(&mut m, "from", self.from.to_json());
        push_value(&mut m, "to", self.to.to_json());
        push_opt_value(
            &mut m,
            "ccies",
            match &self.ccies {
                Some(v) => Some(ccy_list_to_json(v)),
                None => None,
            },
        );
        assert(JsonV::Object(members_view(m@)) =~= exchange_rate_response_data_json(self@));
        object_of(m)
    }
}
/// The `from` or `to` leg of an order: deposit or payout address, confirmation thresholds and the leg's transaction once there is one.
#[derive(Debug, Clone, PartialEq, Eq)]
pub struct OrderCurrency {
    pub code: String,
    pub network: Option<String>,
    pub coin: Option<String>,
    pub amount: String,
    pub rate: Option<String>,
    pub precision: Option<i32>,
    pub min: Option<String>,
    pub max: Option<String>,
    pub usd: Option<String>,
    pub btc: Option<String>,
    pub address: Option<String>,
    pub address_alt: Option<String>,
    pub tag: Option<String>,
    pub tag_name: Option<String>,
    pub req_confirmations: Option<i32>,
    pub max_confirmations: Option<i32>,
    pub tx: Option<Transaction>,
}

/// The mathematical form of an [`OrderCurrency`].
pub struct OrderCurrencyV {
    pub code: Seq<char>,
    pub network: Option<Seq<char>>,
    pub coin: Option<Seq<char>>,
    pub amount: Seq<char>,
    pub rate: Option<Seq<char>>,
    pub precision: Option<i32>,
    pub min: Option<Seq<char>>,
    pub max: Option<Seq<char>>,
    pub usd: Option<Seq<char>>,
    pub btc: Option<Seq<char>>,
    pub address: Option<Seq<char>>,
    pub address_alt: Option<Seq<char>>,
    pub tag: Option<Seq<char>>,
    pub tag_name: Option<Seq<char>>,
    pub req_confirmations: Option<i32>,
    pub max_confirmations: Option<i32>,
    pub tx: Option<TransactionV>,
}

impl View for OrderCurrency {
    type V = OrderCurrencyV;

    open spec fn view(&self) -> OrderCurrencyV {
        OrderCurrencyV {
            code: self.code@,
            network: text_opt(self.network),
            coin: text_opt(self.coin),
            amount: self.amount@,
            rate: text_opt(self.rate),
            precision: self.precision,
            min: text_opt(self.min),
            max: text_opt(self.max),
            usd: text_opt(self.usd),
            btc: text_opt(self.btc),
            address: text_opt(self.address),
            address_alt: text_opt(self.address_alt),
            tag: text_opt(self.tag),
            tag_name: text_opt(self.tag_name),
            req_confirmations: self.req_confirmations,
            max_confirmations: self.max_confirmations,
            tx: match self.tx { Some(t) => Some(t@), None => None },
        }
    }
}

/// What a JSON value decodes to as an [`OrderCurrency`]: an object whose members
/// have the expected kinds; absent or null optional members decode as absent.
pub open spec fn order_currency_of(j: JsonV) -> Option<OrderCurrencyV> {
    if is_object(j)
        && str_member(j, "code"@) is Some
        && opt_str_member(j, "network"@) is Some
        && opt_str_member(j, "coin"@) is Some
        && str_member(j, "amount"@) is Some
        && opt_str_member(j, "rate"@) is Some
        && opt_int_member(j, "precision"@, i32::MIN as int, i32::MAX as int) is Some
        && opt_str_member(j, "min"@) is Some
        && opt_str_member(j, "max"@) is Some
        && opt_str_member(j, "usd"@) is Some
        && opt_str_member(j, "btc"@) is Some
        && opt_str_member(j, "address"@) is Some
        && opt_str_member(j, "addressAlt"@) is Some
        && opt_str_member(j, "tag"@) is Some
        && opt_str_member(j, "tagName"@) is Some
        && opt_int_member(j, "reqConfirmations"@, i32::MIN as int, i32::MAX as int) is Some
        && opt_int_member(j, "maxConfirmations"@, i32::MIN as int, i32::MAX as int) is Some
        && opt_transaction_member(j, "tx"@) is Some {
        Some(
            OrderCurrencyV {
                code: str_member(j, "code"@)->Some_0,
                network: opt_str_member(j, "network"@)->Some_0,
                coin: opt_str_member(j, "coin"@)->Some_0,
                amount: str_member(j, "amount"@)->Some_0,
                rate: opt_str_member(j, "rate"@)->Some_0,
                precision: opt_i32(opt_int_member(j, "precision"@, i32::MIN as int, i32::MAX as int)->Some_0),
                min: opt_str_member(j, "min"@)->Some_0,
                max: opt_str_member(j, "max"@)->Some_0,
                usd: opt_str_member(j, "usd"@)->Some_0,
                btc: opt_str_member(j, "btc"@)->Some_0,
                address: opt_str_member(j, "address"@)->Some_0,
                address_alt: opt_str_member(j, "addressAlt"@)->Some_0,
                tag: opt_str_member(j, "tag"@)->Some_0,
                tag_name: opt_str_member(j, "tagName"@)->Some_0,
                req_confirmations: opt_i32(opt_int_member(j, "reqConfirmations"@, i32::MIN as int, i32::MAX as int)->Some_0),
                max_confirmations: opt_i32(opt_int_member(j, "maxConfirmations"@, i32::MIN as int, i32::MAX as int)->Some_0),
                tx: opt_transaction_member(j, "tx"@)->Some_0,
            },
        )
    } else {
        None
    }
}

/// The JSON object for an [`OrderCurrency`]: every present member, absent ones left out.
pub open spec fn order_currency_json(v: OrderCurrencyV) -> JsonV {
    JsonV::Object(
        str_entry("code"@, v.code)
        + opt_str_entry("network"@, v.network)
        + opt_str_entry("coin"@, v.coin)
        + str_entry("amount"@, v.amount)
        + opt_str_entry("rate"@, v.rate)
        + opt_int_entry("precision"@, opt_i32_int(v.precision))
        + opt_str_entry("min"@, v.min)
        + opt_str_entry("max"@, v.max)
        + opt_str_entry("usd"@, v.usd)
        + opt_str_entry("btc"@, v.btc)
        + opt_str_entry("address"@, v.address)
        + opt_str_entry("addressAlt"@, v.address_alt)
        + opt_str_entry("tag"@, v.tag)
        + opt_str_entry("tagName"@, v.tag_name)
        + opt_int_entry("reqConfirmations"@, opt_i32_int(v.req_confirmations))
        + opt_int_entry("maxConfirmations"@, opt_i32_int(v.max_confirmations))
        + opt_value_entry("tx"@, match v.tx { Some(t) => Some(transaction_json(t)), None => None }),
    )
}

impl OrderCurrency {
    /// Decodes an [`OrderCurrency`] from a JSON value.
    pub fn from_json(j: &Json) -> (r: Option<OrderCurrency>)
        ensures
            match r {
                Some(x) => order_currency_of(j@) == Some(x@),
                None => order_currency_of(j@) is None,
            },
    {
        if !is_object_value(j) {
            return None;
        }
        let code = req_str(j, "code")?;
        let network = opt_str(j, "network")?;
        let coin = opt_str(j, "coin")?;
        let amount = req_str(j, "amount")?;
        let rate = opt_str(j, "rate")?;
        let precision = match opt_int(j, "precision", i32::MIN as i64, i32::MAX as i64)? {
            Some(x) => Some(x as i32),
            None => None,
        };
        let min = opt_str(j, "min")?;
        let max = opt_str(j, "max")?;
        let usd = opt_str(j, "usd")?;
        let btc = opt_str(j, "btc")?;
        let address = opt_str(j, "address")?;
        let address_alt = opt_str(j, "addressAlt")?;
        let tag = opt_str(j, "tag")?;
        let tag_name = opt_str(j, "tagName")?;
        let req_confirmations = match opt_int(j, "reqConfirmations", i32::MIN as i64, i32::MAX as i64)? {
            Some(x) => Some(x as i32),
            None => None,
        };
        let max_confirmations = match opt_int(j, "maxConfirmations", i32::MIN as i64, i32::MAX as i64)? {
            Some(x) => Some(x as i32),
            None => None,
        };
        let tx = match j.get("tx") {
            None => None,
            Some(Json::Null) => None,
            Some(x) => Some(Transaction::from_json(x)?),
        };
        Some(OrderCurrency { code, network, coin, amount, rate, precision, min, max, usd, btc, address, address_alt, tag, tag_name, req_confirmations, max_confirmations, tx })
    }

    /// The JSON object for this value: every present member, absent ones left out.
    pub fn to_json(&self) -> (r: Json)
        ensures
            r@ == order_currency_json(self@),
    {
        let mut m: Vec<(String, Json)> = Vec::new();
        assert(members_view(m@) =~= Seq::empty());
        push_str(&mut m, "code", &self.code);
        push_opt_str(&mut m, "network", &self.network);
        push_opt_str(&mut m, "coin", &self.coin);
        push_str(&mut m, "amount", &self.amount);
        push_opt_str(&mut m, "rate", &self.rate);
        push_opt_int(
            &mut m,
            "precision",
            match self.precision {
                Some(x) => Some(x as i64),
                None => None,
            },
        );
        push_opt_str(&mut m, "min", &self.min);
        push_opt_str(&mut m, "max", &self.max);
        push_opt_str(&mut m, "usd", &self.usd);
        push_opt_str(&mut m, "btc", &self.btc);
        push_opt_str(&mut m, "address", &self.address);
        push_opt_str(&mut m, "addressAlt", &self.address_alt);
        push_opt_str(&mut m, "tag", &self.tag);
        push_opt_str(&mut m, "tagName", &self.tag_name);
        push_opt_int(
            &mut m,
            "reqConfirmations",
            match self.req_confirmations {
                Some(x) => Some(x as i64),
                None => None,
            },
        );
        push_opt_int(
            &mut m,
            "maxConfirmations",
            match self.max_confirmations {
                Some(x) => Some(x as i64),
                None => None,
            },
        );
        push_opt_value(
            &mut m,
            "tx",
            match &self.tx {
                Some(t) => Some(t.to_json()),
                None => None,
            },
        );
        assert(JsonV::Object(members_view(m@)) =~= order_currency_json(self@));
        object_of(m)
    }
}
/// The refund leg of an order.
#[derive(Debug, Clone, PartialEq, Eq)]
pub struct BackCurrency {
    pub code: String,
    pub network: Option<String>,
    pub coin: Option<String>,
    pub amount: Option<String>,
    pub alias: Option<String>,
    pub address: Option<String>,
    pub tag: Option<String>,
    pub tag_name: Option<String>,
    pub tx: Option<Transaction>,
}

/// The mathematical form of a [`BackCurrency`].
pub struct BackCurrencyV {
    pub code: Seq<char>,
    pub network: Option<Seq<char>>,
    pub coin: Option<Seq<char>>,
    pub amount: Option<Seq<char>>,
    pub alias: Option<Seq<char>>,
    pub address: Option<Seq<char>>,
    pub tag: Option<Seq<char>>,
    pub tag_name: Option<Seq<char>>,
    pub tx: Option<TransactionV>,
}

impl View for BackCurrency {
    type V = BackCurrencyV;

    open spec fn view(&self) -> BackCurrencyV {
        BackCurrencyV {
            code: self.code@,
            network: text_opt(self.network),
            coin: text_opt(self.coin),
            amount: text_opt(self.amount),
            alias: text_opt(self.alias),
            address: text_opt(self.address),
            tag: text_opt(self.tag),
            tag_name: text_opt(self.tag_name),
            tx: match self.tx { Some(t) => Some(t@), None => None },
        }
    }
}

/// What a JSON value decodes to as a [`BackCurrency`]: an object whose members
/// have the expected kinds; absent or null optional members decode as absent.
pub open spec fn back_currency_of(j: JsonV) -> Option<BackCurrencyV> {
    if is_object(j)
        && str_member(j, "code"@) is Some
        && opt_str_member(j, "network"@) is Some
        && opt_str_member(j, "coin"@) is Some
        && opt_str_member(j, "amount"@) is Some
        && opt_str_member(j, "alias"@) is Some
        && opt_str_member(j, "address"@) is Some
        && opt_str_member(j, "tag"@) is Some
        && opt_str_member(j, "tagName"@) is Some
        && opt_transaction_member(j, "tx"@) is Some {
        Some(
            BackCurrencyV {
                code: str_member(j, "code"@)->Some_0,
                network: opt_str_member(j, "network"@)->Some_0,
                coin: opt_str_member(j, "coin"@)->Some_0,
                amount: opt_str_member(j, "amount"@)->Some_0,
                alias: opt_str_member(j, "alias"@)->Some_0,
                address: opt_str_member(j, "address"@)->Some_0,
                tag: opt_str_member(j, "tag"@)->Some_0,
                tag_name: opt_str_member(j, "tagName"@)->Some_0,
                tx: opt_transaction_member(j, "tx"@)->Some_0,
            },
        )
    } else {
        None
    }
}

/// The JSON object for a [`BackCurrency`]: every present member, absent ones left out.
pub open spec fn back_currency_json(v: BackCurrencyV) -> JsonV {
    JsonV::Object(
        str_entry("code"@, v.code)
        + opt_str_entry("network"@, v.network)
        + opt_str_entry("coin"@, v.coin)
        + opt_str_entry("amount"@, v.amount)
        + opt_str_entry("alias"@, v.alias)
        + opt_str_entry("address"@, v.address)
        + opt_str_entry("tag"@, v.tag)
        + opt_str_entry("tagName"@, v.tag_name)
        + opt_value_entry("tx"@, match v.tx { Some(t) => Some(transaction_json(t)), None => None }),
    )
}

impl BackCurrency {
    /// Decodes a [`BackCurrency`] from a JSON value.
    pub fn from_json(j: &Json) -> (r: Option<BackCurrency>)
        ensures
            match r {
                Some(x) => back_currency_of(j@) == Some(x@),
                None => back_currency_of(j@) is None,
            },
    {
        if !is_object_value(j) {
            return None;
        }
        let code = req_str(j, "code")?;
        let network = opt_str(j, "network")?;
        let coin = opt_str(j, "coin")?;
        let amount = opt_str(j, "amount")?;
        let alias = opt_str(j, "alias")?;
        let address = opt_str(j, "address")?;
        let tag = opt_str(j, "tag")?;
        let tag_name = opt_str(j, "tagName")?;
        let tx = match j.get("tx") {
            None => None,
            Some(Json::Null) => None,
            Some(x) => Some(Transaction::from_json(x)?),
        };
        Some(BackCurrency { code, network, coin, amount, alias, address, tag, tag_name, tx })
    }

    /// The JSON object for this value: every present member, absent ones left out.
    pub fn to_json(&self) -> (r: Json)
        ensures
            r@ == back_currency_json(self@),
    {
        let mut m: Vec<(String, Json)> = Vec::new();
        assert(members_view(m@) =~= Seq::empty());
        push_str(&mut m, "code", &self.code);
        push_opt_str(&mut m, "network", &self.network);
        push_opt_str(&mut m, "coin", &self.coin);
        push_opt_str(&mut m, "amount", &self.amount);
        push_opt_str(&mut m, "alias", &self.alias);
        push_opt_str(&mut m, "address", &self.address);
        push_opt_str(&mut m, "tag", &self.tag);
        push_opt_str(&mut m, "tagName", &self.tag_name);
        push_opt_value(
            &mut m,
            "tx",
            match &self.tx {
                Some(t) => Some(t.to_json()),
                None => None,
            },
        );
        assert(JsonV::Object(members_view(m@)) =~= back_currency_json(self@));
        object_of(m)
    }
}
/// A snapshot of an order as the exchange reports it; `token` authorises later lookups of it.
#[derive(Debug, Clone, PartialEq, Eq)]
pub struct OrderData {
    pub id: String,
    pub order_type: String,
    pub email: String,
    pub status: String,
    pub time: Time,
    pub from: OrderCurrency,
    pub to: OrderCurrency,
    pub back: BackCurrency,
    pub emergency: Emergency,
    pub token: String,
}

/// The mathematical form of an [`OrderData`].
pub struct OrderDataV {
    pub id: Seq<char>,
    pub order_type: Seq<char>,
    pub email: Seq<char>,
    pub status: Seq<char>,
    pub time: TimeV,
    pub from: OrderCurrencyV,
    pub to: OrderCurrencyV,
    pub back: BackCurrencyV,
    pub emergency: EmergencyV,
    pub token: Seq<char>,
}

impl View for OrderData {
    type V = OrderDataV;

    open spec fn view(&self) -> OrderDataV {
        OrderDataV {
            id: self.id@,
            order_type: self.order_type@,
            email: self.email@,
            status: self.status@,
            time: self.time@,
            from: self.from@,
            to: self.to@,
            back: self.back@,
            emergency: self.emergency@,
            token: self.token@,
        }
    }
}

/// What a JSON value decodes to as an [`OrderData`]: an object whose members
/// have the expected kinds; absent or null optional members decode as absent.
pub open spec fn order_data_of(j: JsonV) -> Option<OrderDataV> {
    if is_object(j)
        && str_member(j, "id"@) is Some
        && str_member(j, "type"@) is Some
        && str_member(j, "email"@) is Some
        && str_member(j, "status"@) is Some
        && field(j, "time"@) is Some
        && time_of(field(j, "time"@)->Some_0) is Some
        && field(j, "from"@) is Some
        && order_currency_of(field(j, "from"@)->Some_0) is Some
        && field(j, "to"@) is Some
        && order_currency_of(field(j, "to"@)->Some_0) is Some
        && field(j, "back"@) is Some
        && back_currency_of(field(j, "back"@)->Some_0) is Some
        && field(j, "emergency"@) is Some
        && emergency_of(field(j, "emergency"@)->Some_0) is Some
        && str_member(j, "token"@) is Some {
        Some(
            OrderDataV {
                id: str_member(j, "id"@)->Some_0,
                order_type: str_member(j, "type"@)->Some_0,
                email: str_member(j, "email"@)->Some_0,
                status: str_member(j, "status"@)->Some_0,
                time: time_of(field(j, "time"@)->Some_0)->Some_0,
                from: order_currency_of(field(j, "from"@)->Some_0)->Some_0,
                to: order_currency_of(field(j, "to"@)->Some_0)->Some_0,
                back: back_currency_of(field(j, "back"@)->Some_0)->Some_0,
                emergency: emergency_of(field(j, "emergency"@)->Some_0)->Some_0,
                token: str_member(j, "token"@)->Some_0,
            },
        )
    } else {
        None
    }
}

/// The JSON object for an [`OrderData`]: every present member, absent ones left out.
pub open spec fn order_data_json(v: OrderDataV) -> JsonV {
    JsonV::Object(
        str_entry("id"@, v.id)
        + str_entry("type"@, v.order_type)
        + str_entry("email"@, v.email)
        + str_entry("status"@, v.status)
        + value_entry("time"@, time_json(v.time))
        + value_entry("from"@, order_currency_json(v.from))
        + value_entry("to"@, order_currency_json(v.to))
        + value_entry("back"@, back_currency_json(v.back))
        + value_entry("emergency"@, emergency_json(v.emergency))
        + str_entry("token"@, v.token),
    )
}

impl OrderData {
    /// Decodes an [`OrderData`] from a JSON value.
    pub fn from_json(j: &Json) -> (r: Option<OrderData>)
        ensures
            match r {
                Some(x) => order_data_of(j@) == Some(x@),
                None => order_data_of(j@) is None,
            },
    {
        if !is_object_value(j) {
            return None;
        }
        let id = req_str(j, "id")?;
        let order_type = req_str(j, "type")?;
        let email = req_str(j, "email")?;
        let status = req_str(j, "status")?;
        let time = match j.get("time") {
            Some(x) => Time::from_json(x)?,
            None => return None,
        };
        let from = match j.get("from") {
            Some(x) => OrderCurrency::from_json(x)?,
            None => return None,
        };
        let to = match j.get("to") {
            Some(x) => OrderCurrency::from_json(x)?,
            None => return None,
        };
        let back = match j.get("back") {
            Some(x) => BackCurrency::from_json(x)?,
            None => return None,
        };
        let emergency = match j.get("emergency") {
            Some(x) => Emergency::from_json(x)?,
            None => return None,
        };
        let token = req_str(j, "token")?;
        Some(OrderData { id, order_type, email, status, time, from, to, back, emergency, token })
    }

    /// The JSON object for this value: every present member, absent ones left out.
    pub fn to_json(&self) -> (r: Json)
        ensures
            r@ == order_data_json(self@),
    {
        let mut m: Vec<(String, Json)> = Vec::new();
        assert(members_view(m@) =~= Seq::empty());
        push_str(&mut m, "id", &self.id);
        push_str(&mut m, "type", &self.order_type);
        push_str(&mut m, "email", &self.email);
        push_str(&mut m, "status", &self.status);
        push_value(&mut m, "time", self.time.to_json());
        push_value(&mut m, "from", self.from.to_json());
        push_value(&mut m, "to", self.to.to_json());
        push_value(&mut m, "back", self.back.to_json());
        push_value(&mut m, "emergency", self.emergency.to_json());
        push_str(&mut m, "token", &self.token);
        assert(JsonV::Object(members_view(m@)) =~= order_data_json(self@));
        object_of(m)
    }
}
} // verus!

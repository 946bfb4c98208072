use vstd::prelude::*;

verus! {

/// The transfer engine's configuration slots that this library sets.
#[allow(non_camel_case_types)]
#[derive(Clone, Copy, PartialEq, Eq, Structural)]
pub enum CURLoption {
    URL,
    USERNAME,
    PASSWORD,
    PROXY,
    PROXYUSERNAME,
    PROXYPASSWORD,
    REFERER,
    TIMEOUT,
    VERBOSE,
    HEADER,
    FOLLOWLOCATION,
    HTTPHEADER,
}

impl CURLoption {
    /// The engine's numeric identifier of the slot.
    pub open spec fn spec_id(self) -> u32 {
        match self {
            CURLoption::URL => 10002,
            CURLoption::USERNAME => 10173,
            CURLoption::PASSWORD => 10174,
            CURLoption::PROXY => 10004,
            CURLoption::PROXYUSERNAME => 10175,
            CURLoption::PROXYPASSWORD => 10176,
            CURLoption::REFERER => 10016,
            CURLoption::TIMEOUT => 13,
            CURLoption::VERBOSE => 41,
            CURLoption::HEADER => 42,
            CURLoption::FOLLOWLOCATION => 52,
            CURLoption::HTTPHEADER => 10023,
        }
    }

    /// The engine's numeric identifier of the slot.
    #[verifier::when_used_as_spec(spec_id)]
    pub fn id(self) -> (r: u32)
        ensures
            r == self.spec_id(),
    {
        match self {
            CURLoption::URL => 10002,
            CURLoption::USERNAME => 10173,
            CURLoption::PASSWORD => 10174,
            CURLoption::PROXY => 10004,
            CURLoption::PROXYUSERNAME => 10175,
            CURLoption::PROXYPASSWORD => 10176,
            CURLoption::REFERER => 10016,
            CURLoption::TIMEOUT => 13,
            CURLoption::VERBOSE => 41,
            CURLoption::HEADER => 42,
            CURLoption::FOLLOWLOCATION => 52,
            CURLoption::HTTPHEADER => 10023,
        }
    }
}

/// A value handed to one configuration slot: a string, an integer (a flag
/// is 0 or 1), or a list of strings.
pub enum OptValue {
    Text(String),
    Long(u64),
    Lines(Vec<String>),
}

/// The mathematical form of an `OptValue`.
pub enum OptModel {
    Text(Seq<char>),
    Long(u64),
    Lines(Seq<Seq<char>>),
}

/// The texts of a list of strings.
pub open spec fn texts(v: Seq<String>) -> Seq<Seq<char>> {
    v.map_values(|s: String| s@)
}

impl OptValue {
    pub open spec fn model(&self) -> OptModel {
        match self {
            OptValue::Text(s) => OptModel::Text(s@),
            OptValue::Long(n) => OptModel::Long(*n),
            OptValue::Lines(v) => OptModel::Lines(texts(v@)),
        }
    }

    /// A copy of the value.
    pub fn duplicate(&self) -> (r: OptValue)
        ensures
            r.model() == self.model(),
    {
        match self {
            OptValue::Text(s) => OptValue::Text(s.clone()),
            OptValue::Long(n) => OptValue::Long(*n),
            OptValue::Lines(v) => {
                let w = v.clone();
                assert(texts(w@) =~= texts(v@));
                OptValue::Lines(w)
            },
        }
    }
}

/// One primitive configuration call: a slot and the value put in it.
pub struct RawOption {
    pub option: CURLoption,
    pub value: OptValue,
}

/// The mathematical form of a `RawOption`.
pub type RawModel = (CURLoption, OptModel);

impl RawOption {
    pub open spec fn model(&self) -> RawModel {
        (self.option, self.value.model())
    }

    /// A copy of the call.
    pub fn duplicate(&self) -> (r: RawOption)
        ensures
            r.model() == self.model(),
    {
        RawOption { option: self.option, value: self.value.duplicate() }
    }
}

/// The models of a list of primitive calls.
pub open spec fn raw_models(v: Seq<RawOption>) -> Seq<RawModel> {
    v.map_values(|r: RawOption| r.model())
}

/// A unit of transfer configuration, as callers write it.
pub enum EasyCurlOption {
    Username(String),
    Password(String),
    /// The proxy host, and optionally a user name and a password for it.
    Proxy(String, Option<String>, Option<String>),
    URL(String),
    Referer(String),
    /// The custom request header lines, each `name: value`.
    HttpHeader(Vec<String>),
    /// The longest a whole transfer may take, in seconds.
    Timeout(u64),
    VerboseMode(bool),
    ShowHeaders(bool),
    FollowLocation(bool),
}

/// A flag as the engine takes it.
pub open spec fn flag(b: bool) -> u64 {
    if b {
        1
    } else {
        0
    }
}

/// The primitive calls that one option stands for, in order. A proxy sets
/// its host, then its user name and password where they are given.
pub open spec fn expand(o: EasyCurlOption) -> Seq<RawModel> {
    match o {
        EasyCurlOption::Username(s) => seq![(CURLoption::USERNAME, OptModel::Text(s@))],
        EasyCurlOption::Password(s) => seq![(CURLoption::PASSWORD, OptModel::Text(s@))],
        EasyCurlOption::Proxy(h, u, p) => seq![(CURLoption::PROXY, OptModel::Text(h@))] + match u {
            Some(u) => seq![(CURLoption::PROXYUSERNAME, OptModel::Text(u@))],
            None => Seq::empty(),
        } + match p {
            Some(p) => seq![(CURLoption::PROXYPASSWORD, OptModel::Text(p@))],
            None => Seq::empty(),
        },
        EasyCurlOption::URL(s) => seq![(CURLoption::URL, OptModel::Text(s@))],
        EasyCurlOption::Referer(s) => seq![(CURLoption::REFERER, OptModel::Text(s@))],
        EasyCurlOption::HttpHeader(v) => seq![(CURLoption::HTTPHEADER, OptModel::Lines(texts(v@)))],
        EasyCurlOption::Timeout(n) => seq![(CURLoption::TIMEOUT, OptModel::Long(n))],
        EasyCurlOption::VerboseMode(b) => seq![(CURLoption::VERBOSE, OptModel::Long(flag(b)))],
        EasyCurlOption::ShowHeaders(b) => seq![(CURLoption::HEADER, OptModel::Long(flag(b)))],
        EasyCurlOption::FollowLocation(b) => seq![
            (CURLoption::FOLLOWLOCATION, OptModel::Long(flag(b))),
        ],
    }
}

fn text_call(option: CURLoption, s: String) -> (r: RawOption)
    ensures
        r.model() == (option, OptModel::Text(s@)),
{
    RawOption { option, value: OptValue::Text(s) }
}

fn flag_call(option: CURLoption, b: bool) -> (r: RawOption)
    ensures
        r.model() == (option, OptModel::Long(flag(b))),
{
    RawOption { option, value: OptValue::Long(if b { 1 } else { 0 }) }
}

/// The primitive calls that one option stands for.
pub fn expand_option(o: EasyCurlOption) -> (r: Vec<RawOption>)
    ensures
        raw_models(r@) == expand(o),
{
    let ghost g = o;
    let mut r: Vec<RawOption> = Vec::new();
    match o {
        EasyCurlOption::Username(s) => r.push(text_call(CURLoption::USERNAME, s)),
        EasyCurlOption::Password(s) => r.push(text_call(CURLoption::PASSWORD, s)),
        EasyCurlOption::Proxy(h, u, p) => {
            r.push(text_call(CURLoption::PROXY, h));
            match u {
                Some(u) => r.push(text_call(CURLoption::PROXYUSERNAME, u)),
                None => {},
            }
            match p {
                Some(p) => r.push(text_call(CURLoption::PROXYPASSWORD, p)),
                None => {},
            }
        },
        EasyCurlOption::URL(s) => r.push(text_call(CURLoption::URL, s)),
        EasyCurlOption::Referer(s) => r.push(text_call(CURLoption::REFERER, s)),
        EasyCurlOption::HttpHeader(v) => r.push(
            RawOption { option: CURLoption::HTTPHEADER, value: OptValue::Lines(v) },
        ),
        EasyCurlOption::Timeout(n) => r.push(
            RawOption { option: CURLoption::TIMEOUT, value: OptValue::Long(n) },
        ),
        EasyCurlOption::VerboseMode(b) => r.push(flag_call(CURLoption::VERBOSE, b)),
        EasyCurlOption::ShowHeaders(b) => r.push(flag_call(CURLoption::HEADER, b)),
        EasyCurlOption::FollowLocation(b) => r.push(flag_call(CURLoption::FOLLOWLOCATION, b)),
    }
    assert(raw_models(r@) =~= expand(g));
    r
}

} // verus!

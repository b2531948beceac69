//! Plain value types shared by every part of the platform.

use vstd::prelude::*;

verus! {

/// Supported exchanges.
#[derive(Clone, Copy, Debug, PartialEq, Eq, Structural)]
pub enum Exchange {
    OKX,
    BYBIT,
}

/// Market on which an instrument trades.
#[derive(Clone, Copy, Debug, PartialEq, Eq, Structural)]
pub enum MarketType {
    Spot,
    Margin,
}

} // verus!

verus! {

/// Identity of a plugin: its name and numeric version.
#[derive(Clone, Debug)]
pub struct PluginId {
    pub name: String,
    pub version: i64,
}

/// The mathematical value of a [`PluginId`].
pub struct PluginIdView {
    pub name: Seq<char>,
    pub version: i64,
}

impl View for PluginId {
    type V = PluginIdView;

    open spec fn view(&self) -> PluginIdView {
        PluginIdView { name: self.name@, version: self.version }
    }
}

impl PluginId {
    /// The identity of version `version` of the plugin `name`.
    pub fn new(name: &str, version: i64) -> (id: PluginId)
        ensures
            id.name@ == name@,
            id.version == version,
    {
        PluginId { name: name.to_owned(), version }
    }

    /// Whether both identities name the same plugin version.
    pub fn same_as(&self, other: &PluginId) -> (same: bool)
        ensures
            same == (self@ == other@),
    {
        self.name == other.name && self.version == other.version
    }

    /// A copy of this identity.
    pub fn duplicate(&self) -> (copy: PluginId)
        ensures
            copy@ == self@,
    {
        PluginId { name: self.name.clone(), version: self.version }
    }
}

/// A plugin binary together with its identity.
#[derive(Clone, Debug)]
pub struct PluginBinary {
    pub id: PluginId,
    pub binary: Vec<u8>,
}

/// The mathematical value of a [`PluginBinary`].
pub struct PluginBinaryView {
    pub id: PluginIdView,
    pub binary: Seq<u8>,
}

impl View for PluginBinary {
    type V = PluginBinaryView;

    open spec fn view(&self) -> PluginBinaryView {
        PluginBinaryView { id: self.id@, binary: self.binary@ }
    }
}

impl PluginBinary {
    /// The binary `binary` under the identity `id`.
    pub fn new(id: PluginId, binary: &[u8]) -> (plugin: PluginBinary)
        ensures
            plugin.id@ == id@,
            plugin.binary@ == binary@,
    {
        PluginBinary { id, binary: vstd::slice::slice_to_vec(binary) }
    }
}

/// What the registry tells about a stored plugin: its identity.
#[derive(Clone, Debug)]
pub struct PluginInfo {
    pub id: PluginId,
}

impl PluginInfo {
    /// The information about the stored plugin `plugin`.
    pub fn from_binary(plugin: &PluginBinary) -> (info: PluginInfo)
        ensures
            info.id@ == plugin.id@,
    {
        PluginInfo { id: plugin.id.duplicate() }
    }
}

} // verus!

verus! {

/// Whether two strings hold the same characters.
pub fn str_eq(a: &str, b: &str) -> (same: bool)
    ensures
        same == (a@ == b@),
{
    let n = a.unicode_len();
    if n != b.unicode_len() {
        return false;
    }
    let mut i: usize = 0;
    while i < n
        invariant
            n == a@.len(),
            n == b@.len(),
            i <= n,
            forall|j: int| 0 <= j < i ==> a@[j] == b@[j],
        decreases n - i,
    {
        if a.get_char(i) != b.get_char(i) {
            return false;
        }
        i = i + 1;
    }
    assert(a@ =~= b@);
    true
}

/// Traded currencies.
#[derive(Clone, Copy, Debug, PartialEq, Eq, Structural)]
pub enum Currency {
    BTC,
    ETH,
    SOL,
    LTC,
    ARB,
    DOT,
    FIL,
    SAND,
    TRX,
    XLM,
    DOGE,
    XRP,
    SUI,
    MANA,
    MATIC,
    OP,
    WLD,
    ADA,
    APE,
    APEX,
    APT,
    CHZ,
    EOS,
    GMT,
    HFT,
    ICP,
    LDO,
    AVAX,
    LINK,
    FTM,
    USDT,
}

/// The ticker symbol of a currency.
pub open spec fn currency_name(c: Currency) -> Seq<char> {
    match c {
        Currency::BTC => "BTC"@,
        Currency::ETH => "ETH"@,
        Currency::SOL => "SOL"@,
        Currency::LTC => "LTC"@,
        Currency::ARB => "ARB"@,
        Currency::DOT => "DOT"@,
        Currency::FIL => "FIL"@,
        Currency::SAND => "SAND"@,
        Currency::TRX => "TRX"@,
        Currency::XLM => "XLM"@,
        Currency::DOGE => "DOGE"@,
        Currency::XRP => "XRP"@,
        Currency::SUI => "SUI"@,
        Currency::MANA => "MANA"@,
        Currency::MATIC => "MATIC"@,
        Currency::OP => "OP"@,
        Currency::WLD => "WLD"@,
        Currency::ADA => "ADA"@,
        Currency::APE => "APE"@,
        Currency::APEX => "APEX"@,
        Currency::APT => "APT"@,
        Currency::CHZ => "CHZ"@,
        Currency::EOS => "EOS"@,
        Currency::GMT => "GMT"@,
        Currency::HFT => "HFT"@,
        Currency::ICP => "ICP"@,
        Currency::LDO => "LDO"@,
        Currency::AVAX => "AVAX"@,
        Currency::LINK => "LINK"@,
        Currency::FTM => "FTM"@,
        Currency::USDT => "USDT"@,
    }
}

/// The currency whose ticker symbol is `s`, if any.
pub open spec fn parse_currency(s: Seq<char>) -> Option<Currency> {
    if s == "BTC"@ {
        Some(Currency::BTC)
    } else     if s == "ETH"@ {
        Some(Currency::ETH)
    } else     if s == "SOL"@ {
        Some(Currency::SOL)
    } else     if s == "LTC"@ {
        Some(Currency::LTC)
    } else     if s == "ARB"@ {
        Some(Currency::ARB)
    } else     if s == "DOT"@ {
        Some(Currency::DOT)
    } else     if s == "FIL"@ {
        Some(Currency::FIL)
    } else     if s == "SAND"@ {
        Some(Currency::SAND)
    } else     if s == "TRX"@ {
        Some(Currency::TRX)
    } else     if s == "XLM"@ {
        Some(Currency::XLM)
    } else     if s == "DOGE"@ {
        Some(Currency::DOGE)
    } else     if s == "XRP"@ {
        Some(Currency::XRP)
    } else     if s == "SUI"@ {
        Some(Currency::SUI)
    } else     if s == "MANA"@ {
        Some(Currency::MANA)
    } else     if s == "MATIC"@ {
        Some(Currency::MATIC)
    } else     if s == "OP"@ {
        Some(Currency::OP)
    } else     if s == "WLD"@ {
        Some(Currency::WLD)
    } else     if s == "ADA"@ {
        Some(Currency::ADA)
    } else     if s == "APE"@ {
        Some(Currency::APE)
    } else     if s == "APEX"@ {
        Some(Currency::APEX)
    } else     if s == "APT"@ {
        Some(Currency::APT)
    } else     if s == "CHZ"@ {
        Some(Currency::CHZ)
    } else     if s == "EOS"@ {
        Some(Currency::EOS)
    } else     if s == "GMT"@ {
        Some(Currency::GMT)
    } else     if s == "HFT"@ {
        Some(Currency::HFT)
    } else     if s == "ICP"@ {
        Some(Currency::ICP)
    } else     if s == "LDO"@ {
        Some(Currency::LDO)
    } else     if s == "AVAX"@ {
        Some(Currency::AVAX)
    } else     if s == "LINK"@ {
        Some(Currency::LINK)
    } else     if s == "FTM"@ {
        Some(Currency::FTM)
    } else     if s == "USDT"@ {
        Some(Currency::USDT)
    } else {
        None
    }
}

impl Currency {
    /// The ticker symbol of this currency.
    pub fn name(&self) -> (name: &'static str)
        ensures
            name@ == currency_name(*self),
    {
        match self {
            Currency::BTC => "BTC",
            Currency::ETH => "ETH",
            Currency::SOL => "SOL",
            Currency::LTC => "LTC",
            Currency::ARB => "ARB",
            Currency::DOT => "DOT",
            Currency::FIL => "FIL",
            Currency::SAND => "SAND",
            Currency::TRX => "TRX",
            Currency::XLM => "XLM",
            Currency::DOGE => "DOGE",
            Currency::XRP => "XRP",
            Currency::SUI => "SUI",
            Currency::MANA => "MANA",
            Currency::MATIC => "MATIC",
            Currency::OP => "OP",
            Currency::WLD => "WLD",
            Currency::ADA => "ADA",
            Currency::APE => "APE",
            Currency::APEX => "APEX",
            Currency::APT => "APT",
            Currency::CHZ => "CHZ",
            Currency::EOS => "EOS",
            Currency::GMT => "GMT",
            Currency::HFT => "HFT",
            Currency::ICP => "ICP",
            Currency::LDO => "LDO",
            Currency::AVAX => "AVAX",
            Currency::LINK => "LINK",
            Currency::FTM => "FTM",
            Currency::USDT => "USDT",
        }
    }

    /// The currency whose ticker symbol is `s`, if any.
    pub fn from_name(s: &str) -> (currency: Option<Currency>)
        ensures
            currency == parse_currency(s@),
    {
        if str_eq(s, "BTC") {
            Some(Currency::BTC)
        } else         if str_eq(s, "ETH") {
            Some(Currency::ETH)
        } else         if str_eq(s, "SOL") {
            Some(Currency::SOL)
        } else         if str_eq(s, "LTC") {
            Some(Currency::LTC)
        } else         if str_eq(s, "ARB") {
            Some(Currency::ARB)
        } else         if str_eq(s, "DOT") {
            Some(Currency::DOT)
        } else         if str_eq(s, "FIL") {
            Some(Currency::FIL)
        } else         if str_eq(s, "SAND") {
            Some(Currency::SAND)
        } else         if str_eq(s, "TRX") {
            Some(Currency::TRX)
        } else         if str_eq(s, "XLM") {
            Some(Currency::XLM)
        } else         if str_eq(s, "DOGE") {
            Some(Currency::DOGE)
        } else         if str_eq(s, "XRP") {
            Some(Currency::XRP)
        } else         if str_eq(s, "SUI") {
            Some(Currency::SUI)
        } else         if str_eq(s, "MANA") {
            Some(Currency::MANA)
        } else         if str_eq(s, "MATIC") {
            Some(Currency::MATIC)
        } else         if str_eq(s, "OP") {
            Some(Currency::OP)
        } else         if str_eq(s, "WLD") {
            Some(Currency::WLD)
        } else         if str_eq(s, "ADA") {
            Some(Currency::ADA)
        } else         if str_eq(s, "APE") {
            Some(Currency::APE)
        } else         if str_eq(s, "APEX") {
            Some(Currency::APEX)
        } else         if str_eq(s, "APT") {
            Some(Currency::APT)
        } else         if str_eq(s, "CHZ") {
            Some(Currency::CHZ)
        } else         if str_eq(s, "EOS") {
            Some(Currency::EOS)
        } else         if str_eq(s, "GMT") {
            Some(Currency::GMT)
        } else         if str_eq(s, "HFT") {
            Some(Currency::HFT)
        } else         if str_eq(s, "ICP") {
            Some(Currency::ICP)
        } else         if str_eq(s, "LDO") {
            Some(Currency::LDO)
        } else         if str_eq(s, "AVAX") {
            Some(Currency::AVAX)
        } else         if str_eq(s, "LINK") {
            Some(Currency::LINK)
        } else         if str_eq(s, "FTM") {
            Some(Currency::FTM)
        } else         if str_eq(s, "USDT") {
            Some(Currency::USDT)
        } else {
            None
        }
    }
}

/// Law: the ticker symbol of a currency reads back as that currency.
#[verifier::rlimit(50)]
pub proof fn law_currency_name_round_trip(c: Currency)
    ensures
        parse_currency(currency_name(c)) == Some(c),
{
    match c {
        Currency::BTC => {
            reveal_strlit("BTC");
        },
        Currency::ETH => {
            reveal_strlit("ETH");
            reveal_strlit("BTC");
            assert("ETH"@[0] != "BTC"@[0]);
        },
        Currency::SOL => {
            reveal_strlit("SOL");
            reveal_strlit("BTC");
            assert("SOL"@[0] != "BTC"@[0]);
            reveal_strlit("ETH");
            assert("SOL"@[0] != "ETH"@[0]);
        },
        Currency::LTC => {
            reveal_strlit("LTC");
            reveal_strlit("BTC");
            assert("LTC"@[0] != "BTC"@[0]);
            reveal_strlit("ETH");
            assert("LTC"@[0] != "ETH"@[0]);
            reveal_strlit("SOL");
            assert("LTC"@[0] != "SOL"@[0]);
        },
        Currency::ARB => {
            reveal_strlit("ARB");
            reveal_strlit("BTC");
            assert("ARB"@[0] != "BTC"@[0]);
            reveal_strlit("ETH");
            assert("ARB"@[0] != "ETH"@[0]);
            reveal_strlit("SOL");
            assert("ARB"@[0] != "SOL"@[0]);
            reveal_strlit("LTC");
            assert("ARB"@[0] != "LTC"@[0]);
        },
        Currency::DOT => {
            reveal_strlit("DOT");
            reveal_strlit("BTC");
            assert("DOT"@[0] != "BTC"@[0]);
            reveal_strlit("ETH");
            assert("DOT"@[0] != "ETH"@[0]);
            reveal_strlit("SOL");
            assert("DOT"@[0] != "SOL"@[0]);
            reveal_strlit("LTC");
            assert("DOT"@[0] != "LTC"@[0]);
            reveal_strlit("ARB");
            assert("DOT"@[0] != "ARB"@[0]);
        },
        Currency::FIL => {
            reveal_strlit("FIL");
            reveal_strlit("BTC");
            assert("FIL"@[0] != "BTC"@[0]);
            reveal_strlit("ETH");
            assert("FIL"@[0] != "ETH"@[0]);
            reveal_strlit("SOL");
            assert("FIL"@[0] != "SOL"@[0]);
            reveal_strlit("LTC");
            assert("FIL"@[0] != "LTC"@[0]);
            reveal_strlit("ARB");
            assert("FIL"@[0] != "ARB"@[0]);
            reveal_strlit("DOT");
            assert("FIL"@[0] != "DOT"@[0]);
        },
        Currency::SAND => {
            reveal_strlit("SAND");
            reveal_strlit("BTC");
            assert("SAND"@.len() != "BTC"@.len());
            reveal_strlit("ETH");
            assert("SAND"@.len() != "ETH"@.len());
            reveal_strlit("SOL");
            assert("SAND"@.len() != "SOL"@.len());
            reveal_strlit("LTC");
            assert("SAND"@.len() != "LTC"@.len());
            reveal_strlit("ARB");
            assert("SAND"@.len() != "ARB"@.len());
            reveal_strlit("DOT");
            assert("SAND"@.len() != "DOT"@.len());
            reveal_strlit("FIL");
            assert("SAND"@.len() != "FIL"@.len());
        },
        Currency::TRX => {
            reveal_strlit("TRX");
            reveal_strlit("BTC");
            assert("TRX"@[0] != "BTC"@[0]);
            reveal_strlit("ETH");
            assert("TRX"@[0] != "ETH"@[0]);
            reveal_strlit("SOL");
            assert("TRX"@[0] != "SOL"@[0]);
            reveal_strlit("LTC");
            assert("TRX"@[0] != "LTC"@[0]);
            reveal_strlit("ARB");
            assert("TRX"@[0] != "ARB"@[0]);
            reveal_strlit("DOT");
            assert("TRX"@[0] != "DOT"@[0]);
            reveal_strlit("FIL");
            assert("TRX"@[0] != "FIL"@[0]);
            reveal_strlit("SAND");
            assert("TRX"@.len() != "SAND"@.len());
        },
        Currency::XLM => {
            reveal_strlit("XLM");
            reveal_strlit("BTC");
            assert("XLM"@[0] != "BTC"@[0]);
            reveal_strlit("ETH");
            assert("XLM"@[0] != "ETH"@[0]);
            reveal_strlit("SOL");
            assert("XLM"@[0] != "SOL"@[0]);
            reveal_strlit("LTC");
            assert("XLM"@[0] != "LTC"@[0]);
            reveal_strlit("ARB");
            assert("XLM"@[0] != "ARB"@[0]);
            reveal_strlit("DOT");
            assert("XLM"@[0] != "DOT"@[0]);
            reveal_strlit("FIL");
            assert("XLM"@[0] != "FIL"@[0]);
            reveal_strlit("SAND");
            assert("XLM"@.len() != "SAND"@.len());
            reveal_strlit("TRX");
            assert("XLM"@[0] != "TRX"@[0]);
        },
        Currency::DOGE => {
            reveal_strlit("DOGE");
            reveal_strlit("BTC");
            assert("DOGE"@.len() != "BTC"@.len());
            reveal_strlit("ETH");
            assert("DOGE"@.len() != "ETH"@.len());
            reveal_strlit("SOL");
            assert("DOGE"@.len() != "SOL"@.len());
            reveal_strlit("LTC");
            assert("DOGE"@.len() != "LTC"@.len());
            reveal_strlit("ARB");
            assert("DOGE"@.len() != "ARB"@.len());
            reveal_strlit("DOT");
            assert("DOGE"@.len() != "DOT"@.len());
            reveal_strlit("FIL");
            assert("DOGE"@.len() != "FIL"@.len());
            reveal_strlit("SAND");
            assert("DOGE"@[0] != "SAND"@[0]);
            reveal_strlit("TRX");
            assert("DOGE"@.len() != "TRX"@.len());
            reveal_strlit("XLM");
            assert("DOGE"@.len() != "XLM"@.len());
        },
        Currency::XRP => {
            reveal_strlit("XRP");
            reveal_strlit("BTC");
            assert("XRP"@[0] != "BTC"@[0]);
            reveal_strlit("ETH");
            assert("XRP"@[0] != "ETH"@[0]);
            reveal_strlit("SOL");
            assert("XRP"@[0] != "SOL"@[0]);
            reveal_strlit("LTC");
            assert("XRP"@[0] != "LTC"@[0]);
            reveal_strlit("ARB");
            assert("XRP"@[0] != "ARB"@[0]);
            reveal_strlit("DOT");
            assert("XRP"@[0] != "DOT"@[0]);
            reveal_strlit("FIL");
            assert("XRP"@[0] != "FIL"@[0]);
            reveal_strlit("SAND");
            assert("XRP"@.len() != "SAND"@.len());
            reveal_strlit("TRX");
            assert("XRP"@[0] != "TRX"@[0]);
            reveal_strlit("XLM");
            assert("XRP"@[1] != "XLM"@[1]);
            reveal_strlit("DOGE");
            assert("XRP"@.len() != "DOGE"@.len());
        },
        Currency::SUI => {
            reveal_strlit("SUI");
            reveal_strlit("BTC");
            assert("SUI"@[0] != "BTC"@[0]);
            reveal_strlit("ETH");
            assert("SUI"@[0] != "ETH"@[0]);
            reveal_strlit("SOL");
            assert("SUI"@[1] != "SOL"@[1]);
            reveal_strlit("LTC");
            assert("SUI"@[0] != "LTC"@[0]);
            reveal_strlit("ARB");
            assert("SUI"@[0] != "ARB"@[0]);
            reveal_strlit("DOT");
            assert("SUI"@[0] != "DOT"@[0]);
            reveal_strlit("FIL");
            assert("SUI"@[0] != "FIL"@[0]);
            reveal_strlit("SAND");
            assert("SUI"@.len() != "SAND"@.len());
            reveal_strlit("TRX");
            assert("SUI"@[0] != "TRX"@[0]);
            reveal_strlit("XLM");
            assert("SUI"@[0] != "XLM"@[0]);
            reveal_strlit("DOGE");
            assert("SUI"@.len() != "DOGE"@.len());
            reveal_strlit("XRP");
            assert("SUI"@[0] != "XRP"@[0]);
        },
        Currency::MANA => {
            reveal_strlit("MANA");
            reveal_strlit("BTC");
            assert("MANA"@.len() != "BTC"@.len());
            reveal_strlit("ETH");
            assert("MANA"@.len() != "ETH"@.len());
            reveal_strlit("SOL");
            assert("MANA"@.len() != "SOL"@.len());
            reveal_strlit("LTC");
            assert("MANA"@.len() != "LTC"@.len());
            reveal_strlit("ARB");
            assert("MANA"@.len() != "ARB"@.len());
            reveal_strlit("DOT");
            assert("MANA"@.len() != "DOT"@.len());
            reveal_strlit("FIL");
            assert("MANA"@.len() != "FIL"@.len());
            reveal_strlit("SAND");
            assert("MANA"@[0] != "SAND"@[0]);
            reveal_strlit("TRX");
            assert("MANA"@.len() != "TRX"@.len());
            reveal_strlit("XLM");
            assert("MANA"@.len() != "XLM"@.len());
            reveal_strlit("DOGE");
            assert("MANA"@[0] != "DOGE"@[0]);
            reveal_strlit("XRP");
            assert("MANA"@.len() != "XRP"@.len());
            reveal_strlit("SUI");
            assert("MANA"@.len() != "SUI"@.len());
        },
        Currency::MATIC => {
            reveal_strlit("MATIC");
            reveal_strlit("BTC");
            assert("MATIC"@.len() != "BTC"@.len());
            reveal_strlit("ETH");
            assert("MATIC"@.len() != "ETH"@.len());
            reveal_strlit("SOL");
            assert("MATIC"@.len() != "SOL"@.len());
            reveal_strlit("LTC");
            assert("MATIC"@.len() != "LTC"@.len());
            reveal_strlit("ARB");
            assert("MATIC"@.len() != "ARB"@.len());
            reveal_strlit("DOT");
            assert("MATIC"@.len() != "DOT"@.len());
            reveal_strlit("FIL");
            assert("MATIC"@.len() != "FIL"@.len());
            reveal_strlit("SAND");
            assert("MATIC"@.len() != "SAND"@.len());
            reveal_strlit("TRX");
            assert("MATIC"@.len() != "TRX"@.len());
            reveal_strlit("XLM");
            assert("MATIC"@.len() != "XLM"@.len());
            reveal_strlit("DOGE");
            assert("MATIC"@.len() != "DOGE"@.len());
            reveal_strlit("XRP");
            assert("MATIC"@.len() != "XRP"@.len());
            reveal_strlit("SUI");
            assert("MATIC"@.len() != "SUI"@.len());
            reveal_strlit("MANA");
            assert("MATIC"@.len() != "MANA"@.len());
        },
        Currency::OP => {
            reveal_strlit("OP");
            reveal_strlit("BTC");
            assert("OP"@.len() != "BTC"@.len());
            reveal_strlit("ETH");
            assert("OP"@.len() != "ETH"@.len());
            reveal_strlit("SOL");
            assert("OP"@.len() != "SOL"@.len());
            reveal_strlit("LTC");
            assert("OP"@.len() != "LTC"@.len());
            reveal_strlit("ARB");
            assert("OP"@.len() != "ARB"@.len());
            reveal_strlit("DOT");
            assert("OP"@.len() != "DOT"@.len());
            reveal_strlit("FIL");
            assert("OP"@.len() != "FIL"@.len());
            reveal_strlit("SAND");
            assert("OP"@.len() != "SAND"@.len());
            reveal_strlit("TRX");
            assert("OP"@.len() != "TRX"@.len());
            reveal_strlit("XLM");
            assert("OP"@.len() != "XLM"@.len());
            reveal_strlit("DOGE");
            assert("OP"@.len() != "DOGE"@.len());
            reveal_strlit("XRP");
            assert("OP"@.len() != "XRP"@.len());
            reveal_strlit("SUI");
            assert("OP"@.len() != "SUI"@.len());
            reveal_strlit("MANA");
            assert("OP"@.len() != "MANA"@.len());
            reveal_strlit("MATIC");
            assert("OP"@.len() != "MATIC"@.len());
        },
        Currency::WLD => {
            reveal_strlit("WLD");
            reveal_strlit("BTC");
            assert("WLD"@[0] != "BTC"@[0]);
            reveal_strlit("ETH");
            assert("WLD"@[0] != "ETH"@[0]);
            reveal_strlit("SOL");
            assert("WLD"@[0] != "SOL"@[0]);
            reveal_strlit("LTC");
            assert("WLD"@[0] != "LTC"@[0]);
            reveal_strlit("ARB");
            assert("WLD"@[0] != "ARB"@[0]);
            reveal_strlit("DOT");
            assert("WLD"@[0] != "DOT"@[0]);
            reveal_strlit("FIL");
            assert("WLD"@[0] != "FIL"@[0]);
            reveal_strlit("SAND");
            assert("WLD"@.len() != "SAND"@.len());
            reveal_strlit("TRX");
            assert("WLD"@[0] != "TRX"@[0]);
            reveal_strlit("XLM");
            assert("WLD"@[0] != "XLM"@[0]);
            reveal_strlit("DOGE");
            assert("WLD"@.len() != "DOGE"@.len());
            reveal_strlit("XRP");
            assert("WLD"@[0] != "XRP"@[0]);
            reveal_strlit("SUI");
            assert("WLD"@[0] != "SUI"@[0]);
            reveal_strlit("MANA");
            assert("WLD"@.len() != "MANA"@.len());
            reveal_strlit("MATIC");
            assert("WLD"@.len() != "MATIC"@.len());
            reveal_strlit("OP");
            assert("WLD"@.len() != "OP"@.len());
        },
        Currency::ADA => {
            reveal_strlit("ADA");
            reveal_strlit("BTC");
            assert("ADA"@[0] != "BTC"@[0]);
            reveal_strlit("ETH");
            assert("ADA"@[0] != "ETH"@[0]);
            reveal_strlit("SOL");
            assert("ADA"@[0] != "SOL"@[0]);
            reveal_strlit("LTC");
            assert("ADA"@[0] != "LTC"@[0]);
            reveal_strlit("ARB");
            assert("ADA"@[1] != "ARB"@[1]);
            reveal_strlit("DOT");
            assert("ADA"@[0] != "DOT"@[0]);
            reveal_strlit("FIL");
            assert("ADA"@[0] != "FIL"@[0]);
            reveal_strlit("SAND");
            assert("ADA"@.len() != "SAND"@.len());
            reveal_strlit("TRX");
            assert("ADA"@[0] != "TRX"@[0]);
            reveal_strlit("XLM");
            assert("ADA"@[0] != "XLM"@[0]);
            reveal_strlit("DOGE");
            assert("ADA"@.len() != "DOGE"@.len());
            reveal_strlit("XRP");
            assert("ADA"@[0] != "XRP"@[0]);
            reveal_strlit("SUI");
            assert("ADA"@[0] != "SUI"@[0]);
            reveal_strlit("MANA");
            assert("ADA"@.len() != "MANA"@.len());
            reveal_strlit("MATIC");
            assert("ADA"@.len() != "MATIC"@.len());
            reveal_strlit("OP");
            assert("ADA"@.len() != "OP"@.len());
            reveal_strlit("WLD");
            assert("ADA"@[0] != "WLD"@[0]);
        },
        Currency::APE => {
            reveal_strlit("APE");
            reveal_strlit("BTC");
            assert("APE"@[0] != "BTC"@[0]);
            reveal_strlit("ETH");
            assert("APE"@[0] != "ETH"@[0]);
            reveal_strlit("SOL");
            assert("APE"@[0] != "SOL"@[0]);
            reveal_strlit("LTC");
            assert("APE"@[0] != "LTC"@[0]);
            reveal_strlit("ARB");
            assert("APE"@[1] != "ARB"@[1]);
            reveal_strlit("DOT");
            assert("APE"@[0] != "DOT"@[0]);
            reveal_strlit("FIL");
            assert("APE"@[0] != "FIL"@[0]);
            reveal_strlit("SAND");
            assert("APE"@.len() != "SAND"@.len());
            reveal_strlit("TRX");
            assert("APE"@[0] != "TRX"@[0]);
            reveal_strlit("XLM");
            assert("APE"@[0] != "XLM"@[0]);
            reveal_strlit("DOGE");
            assert("APE"@.len() != "DOGE"@.len());
            reveal_strlit("XRP");
            assert("APE"@[0] != "XRP"@[0]);
            reveal_strlit("SUI");
            assert("APE"@[0] != "SUI"@[0]);
            reveal_strlit("MANA");
            assert("APE"@.len() != "MANA"@.len());
            reveal_strlit("MATIC");
            assert("APE"@.len() != "MATIC"@.len());
            reveal_strlit("OP");
            assert("APE"@.len() != "OP"@.len());
            reveal_strlit("WLD");
            assert("APE"@[0] != "WLD"@[0]);
            reveal_strlit("ADA");
            assert("APE"@[1] != "ADA"@[1]);
        },
        Currency::APEX => {
            reveal_strlit("APEX");
            reveal_strlit("BTC");
            assert("APEX"@.len() != "BTC"@.len());
            reveal_strlit("ETH");
            assert("APEX"@.len() != "ETH"@.len());
            reveal_strlit("SOL");
            assert("APEX"@.len() != "SOL"@.len());
            reveal_strlit("LTC");
            assert("APEX"@.len() != "LTC"@.len());
            reveal_strlit("ARB");
            assert("APEX"@.len() != "ARB"@.len());
            reveal_strlit("DOT");
            assert("APEX"@.len() != "DOT"@.len());
            reveal_strlit("FIL");
            assert("APEX"@.len() != "FIL"@.len());
            reveal_strlit("SAND");
            assert("APEX"@[0] != "SAND"@[0]);
            reveal_strlit("TRX");
            assert("APEX"@.len() != "TRX"@.len());
            reveal_strlit("XLM");
            assert("APEX"@.len() != "XLM"@.len());
            reveal_strlit("DOGE");
            assert("APEX"@[0] != "DOGE"@[0]);
            reveal_strlit("XRP");
            assert("APEX"@.len() != "XRP"@.len());
            reveal_strlit("SUI");
            assert("APEX"@.len() != "SUI"@.len());
            reveal_strlit("MANA");
            assert("APEX"@[0] != "MANA"@[0]);
            reveal_strlit("MATIC");
            assert("APEX"@.len() != "MATIC"@.len());
            reveal_strlit("OP");
            assert("APEX"@.len() != "OP"@.len());
            reveal_strlit("WLD");
            assert("APEX"@.len() != "WLD"@.len());
            reveal_strlit("ADA");
            assert("APEX"@.len() != "ADA"@.len());
            reveal_strlit("APE");
            assert("APEX"@.len() != "APE"@.len());
        },
        Currency::APT => {
            reveal_strlit("APT");
            reveal_strlit("BTC");
            assert("APT"@[0] != "BTC"@[0]);
            reveal_strlit("ETH");
            assert("APT"@[0] != "ETH"@[0]);
            reveal_strlit("SOL");
            assert("APT"@[0] != "SOL"@[0]);
            reveal_strlit("LTC");
            assert("APT"@[0] != "LTC"@[0]);
            reveal_strlit("ARB");
            assert("APT"@[1] != "ARB"@[1]);
            reveal_strlit("DOT");
            assert("APT"@[0] != "DOT"@[0]);
            reveal_strlit("FIL");
            assert("APT"@[0] != "FIL"@[0]);
            reveal_strlit("SAND");
            assert("APT"@.len() != "SAND"@.len());
            reveal_strlit("TRX");
            assert("APT"@[0] != "TRX"@[0]);
            reveal_strlit("XLM");
            assert("APT"@[0] != "XLM"@[0]);
            reveal_strlit("DOGE");
            assert("APT"@.len() != "DOGE"@.len());
            reveal_strlit("XRP");
            assert("APT"@[0] != "XRP"@[0]);
            reveal_strlit("SUI");
            assert("APT"@[0] != "SUI"@[0]);
            reveal_strlit("MANA");
            assert("APT"@.len() != "MANA"@.len());
            reveal_strlit("MATIC");
            assert("APT"@.len() != "MATIC"@.len());
            reveal_strlit("OP");
            assert("APT"@.len() != "OP"@.len());
            reveal_strlit("WLD");
            assert("APT"@[0] != "WLD"@[0]);
            reveal_strlit("ADA");
            assert("APT"@[1] != "ADA"@[1]);
            reveal_strlit("APE");
            assert("APT"@[2] != "APE"@[2]);
            reveal_strlit("APEX");
            assert("APT"@.len() != "APEX"@.len());
        },
        Currency::CHZ => {
            reveal_strlit("CHZ");
            reveal_strlit("BTC");
            assert("CHZ"@[0] != "BTC"@[0]);
            reveal_strlit("ETH");
            assert("CHZ"@[0] != "ETH"@[0]);
            reveal_strlit("SOL");
            assert("CHZ"@[0] != "SOL"@[0]);
            reveal_strlit("LTC");
            assert("CHZ"@[0] != "LTC"@[0]);
            reveal_strlit("ARB");
            assert("CHZ"@[0] != "ARB"@[0]);
            reveal_strlit("DOT");
            assert("CHZ"@[0] != "DOT"@[0]);
            reveal_strlit("FIL");
            assert("CHZ"@[0] != "FIL"@[0]);
            reveal_strlit("SAND");
            assert("CHZ"@.len() != "SAND"@.len());
            reveal_strlit("TRX");
            assert("CHZ"@[0] != "TRX"@[0]);
            reveal_strlit("XLM");
            assert("CHZ"@[0] != "XLM"@[0]);
            reveal_strlit("DOGE");
            assert("CHZ"@.len() != "DOGE"@.len());
            reveal_strlit("XRP");
            assert("CHZ"@[0] != "XRP"@[0]);
            reveal_strlit("SUI");
            assert("CHZ"@[0] != "SUI"@[0]);
            reveal_strlit("MANA");
            assert("CHZ"@.len() != "MANA"@.len());
            reveal_strlit("MATIC");
            assert("CHZ"@.len() != "MATIC"@.len());
            reveal_strlit("OP");
            assert("CHZ"@.len() != "OP"@.len());
            reveal_strlit("WLD");
            assert("CHZ"@[0] != "WLD"@[0]);
            reveal_strlit("ADA");
            assert("CHZ"@[0] != "ADA"@[0]);
            reveal_strlit("APE");
            assert("CHZ"@[0] != "APE"@[0]);
            reveal_strlit("APEX");
            assert("CHZ"@.len() != "APEX"@.len());
            reveal_strlit("APT");
            assert("CHZ"@[0] != "APT"@[0]);
        },
        Currency::EOS => {
            reveal_strlit("EOS");
            reveal_strlit("BTC");
            assert("EOS"@[0] != "BTC"@[0]);
            reveal_strlit("ETH");
            assert("EOS"@[1] != "ETH"@[1]);
            reveal_strlit("SOL");
            assert("EOS"@[0] != "SOL"@[0]);
            reveal_strlit("LTC");
            assert("EOS"@[0] != "LTC"@[0]);
            reveal_strlit("ARB");
            assert("EOS"@[0] != "ARB"@[0]);
            reveal_strlit("DOT");
            assert("EOS"@[0] != "DOT"@[0]);
            reveal_strlit("FIL");
            assert("EOS"@[0] != "FIL"@[0]);
            reveal_strlit("SAND");
            assert("EOS"@.len() != "SAND"@.len());
            reveal_strlit("TRX");
            assert("EOS"@[0] != "TRX"@[0]);
            reveal_strlit("XLM");
            assert("EOS"@[0] != "XLM"@[0]);
            reveal_strlit("DOGE");
            assert("EOS"@.len() != "DOGE"@.len());
            reveal_strlit("XRP");
            assert("EOS"@[0] != "XRP"@[0]);
            reveal_strlit("SUI");
            assert("EOS"@[0] != "SUI"@[0]);
            reveal_strlit("MANA");
            assert("EOS"@.len() != "MANA"@.len());
            reveal_strlit("MATIC");
            assert("EOS"@.len() != "MATIC"@.len());
            reveal_strlit("OP");
            assert("EOS"@.len() != "OP"@.len());
            reveal_strlit("WLD");
            assert("EOS"@[0] != "WLD"@[0]);
            reveal_strlit("ADA");
            assert("EOS"@[0] != "ADA"@[0]);
            reveal_strlit("APE");
            assert("EOS"@[0] != "APE"@[0]);
            reveal_strlit("APEX");
            assert("EOS"@.len() != "APEX"@.len());
            reveal_strlit("APT");
            assert("EOS"@[0] != "APT"@[0]);
            reveal_strlit("CHZ");
            assert("EOS"@[0] != "CHZ"@[0]);
        },
        Currency::GMT => {
            reveal_strlit("GMT");
            reveal_strlit("BTC");
            assert("GMT"@[0] != "BTC"@[0]);
            reveal_strlit("ETH");
            assert("GMT"@[0] != "ETH"@[0]);
            reveal_strlit("SOL");
            assert("GMT"@[0] != "SOL"@[0]);
            reveal_strlit("LTC");
            assert("GMT"@[0] != "LTC"@[0]);
            reveal_strlit("ARB");
            assert("GMT"@[0] != "ARB"@[0]);
            reveal_strlit("DOT");
            assert("GMT"@[0] != "DOT"@[0]);
            reveal_strlit("FIL");
            assert("GMT"@[0] != "FIL"@[0]);
            reveal_strlit("SAND");
            assert("GMT"@.len() != "SAND"@.len());
            reveal_strlit("TRX");
            assert("GMT"@[0] != "TRX"@[0]);
            reveal_strlit("XLM");
            assert("GMT"@[0] != "XLM"@[0]);
            reveal_strlit("DOGE");
            assert("GMT"@.len() != "DOGE"@.len());
            reveal_strlit("XRP");
            assert("GMT"@[0] != "XRP"@[0]);
            reveal_strlit("SUI");
            assert("GMT"@[0] != "SUI"@[0]);
            reveal_strlit("MANA");
            assert("GMT"@.len() != "MANA"@.len());
            reveal_strlit("MATIC");
            assert("GMT"@.len() != "MATIC"@.len());
            reveal_strlit("OP");
            assert("GMT"@.len() != "OP"@.len());
            reveal_strlit("WLD");
            assert("GMT"@[0] != "WLD"@[0]);
            reveal_strlit("ADA");
            assert("GMT"@[0] != "ADA"@[0]);
            reveal_strlit("APE");
            assert("GMT"@[0] != "APE"@[0]);
            reveal_strlit("APEX");
            assert("GMT"@.len() != "APEX"@.len());
            reveal_strlit("APT");
            assert("GMT"@[0] != "APT"@[0]);
            reveal_strlit("CHZ");
            assert("GMT"@[0] != "CHZ"@[0]);
            reveal_strlit("EOS");
            assert("GMT"@[0] != "EOS"@[0]);
        },
        Currency::HFT => {
            reveal_strlit("HFT");
            reveal_strlit("BTC");
            assert("HFT"@[0] != "BTC"@[0]);
            reveal_strlit("ETH");
            assert("HFT"@[0] != "ETH"@[0]);
            reveal_strlit("SOL");
            assert("HFT"@[0] != "SOL"@[0]);
            reveal_strlit("LTC");
            assert("HFT"@[0] != "LTC"@[0]);
            reveal_strlit("ARB");
            assert("HFT"@[0] != "ARB"@[0]);
            reveal_strlit("DOT");
            assert("HFT"@[0] != "DOT"@[0]);
            reveal_strlit("FIL");
            assert("HFT"@[0] != "FIL"@[0]);
            reveal_strlit("SAND");
            assert("HFT"@.len() != "SAND"@.len());
            reveal_strlit("TRX");
            assert("HFT"@[0] != "TRX"@[0]);
            reveal_strlit("XLM");
            assert("HFT"@[0] != "XLM"@[0]);
            reveal_strlit("DOGE");
            assert("HFT"@.len() != "DOGE"@.len());
            reveal_strlit("XRP");
            assert("HFT"@[0] != "XRP"@[0]);
            reveal_strlit("SUI");
            assert("HFT"@[0] != "SUI"@[0]);
            reveal_strlit("MANA");
            assert("HFT"@.len() != "MANA"@.len());
            reveal_strlit("MATIC");
            assert("HFT"@.len() != "MATIC"@.len());
            reveal_strlit("OP");
            assert("HFT"@.len() != "OP"@.len());
            reveal_strlit("WLD");
            assert("HFT"@[0] != "WLD"@[0]);
            reveal_strlit("ADA");
            assert("HFT"@[0] != "ADA"@[0]);
            reveal_strlit("APE");
            assert("HFT"@[0] != "APE"@[0]);
            reveal_strlit("APEX");
            assert("HFT"@.len() != "APEX"@.len());
            reveal_strlit("APT");
            assert("HFT"@[0] != "APT"@[0]);
            reveal_strlit("CHZ");
            assert("HFT"@[0] != "CHZ"@[0]);
            reveal_strlit("EOS");
            assert("HFT"@[0] != "EOS"@[0]);
            reveal_strlit("GMT");
            assert("HFT"@[0] != "GMT"@[0]);
        },
        Currency::ICP => {
            reveal_strlit("ICP");
            reveal_strlit("BTC");
            assert("ICP"@[0] != "BTC"@[0]);
            reveal_strlit("ETH");
            assert("ICP"@[0] != "ETH"@[0]);
            reveal_strlit("SOL");
            assert("ICP"@[0] != "SOL"@[0]);
            reveal_strlit("LTC");
            assert("ICP"@[0] != "LTC"@[0]);
            reveal_strlit("ARB");
            assert("ICP"@[0] != "ARB"@[0]);
            reveal_strlit("DOT");
            assert("ICP"@[0] != "DOT"@[0]);
            reveal_strlit("FIL");
            assert("ICP"@[0] != "FIL"@[0]);
            reveal_strlit("SAND");
            assert("ICP"@.len() != "SAND"@.len());
            reveal_strlit("TRX");
            assert("ICP"@[0] != "TRX"@[0]);
            reveal_strlit("XLM");
            assert("ICP"@[0] != "XLM"@[0]);
            reveal_strlit("DOGE");
            assert("ICP"@.len() != "DOGE"@.len());
            reveal_strlit("XRP");
            assert("ICP"@[0] != "XRP"@[0]);
            reveal_strlit("SUI");
            assert("ICP"@[0] != "SUI"@[0]);
            reveal_strlit("MANA");
            assert("ICP"@.len() != "MANA"@.len());
            reveal_strlit("MATIC");
            assert("ICP"@.len() != "MATIC"@.len());
            reveal_strlit("OP");
            assert("ICP"@.len() != "OP"@.len());
            reveal_strlit("WLD");
            assert("ICP"@[0] != "WLD"@[0]);
            reveal_strlit("ADA");
            assert("ICP"@[0] != "ADA"@[0]);
            reveal_strlit("APE");
            assert("ICP"@[0] != "APE"@[0]);
            reveal_strlit("APEX");
            assert("ICP"@.len() != "APEX"@.len());
            reveal_strlit("APT");
            assert("ICP"@[0] != "APT"@[0]);
            reveal_strlit("CHZ");
            assert("ICP"@[0] != "CHZ"@[0]);
            reveal_strlit("EOS");
            assert("ICP"@[0] != "EOS"@[0]);
            reveal_strlit("GMT");
            assert("ICP"@[0] != "GMT"@[0]);
            reveal_strlit("HFT");
            assert("ICP"@[0] != "HFT"@[0]);
        },
        Currency::LDO => {
            reveal_strlit("LDO");
            reveal_strlit("BTC");
            assert("LDO"@[0] != "BTC"@[0]);
            reveal_strlit("ETH");
            assert("LDO"@[0] != "ETH"@[0]);
            reveal_strlit("SOL");
            assert("LDO"@[0] != "SOL"@[0]);
            reveal_strlit("LTC");
            assert("LDO"@[1] != "LTC"@[1]);
            reveal_strlit("ARB");
            assert("LDO"@[0] != "ARB"@[0]);
            reveal_strlit("DOT");
            assert("LDO"@[0] != "DOT"@[0]);
            reveal_strlit("FIL");
            assert("LDO"@[0] != "FIL"@[0]);
            reveal_strlit("SAND");
            assert("LDO"@.len() != "SAND"@.len());
            reveal_strlit("TRX");
            assert("LDO"@[0] != "TRX"@[0]);
            reveal_strlit("XLM");
            assert("LDO"@[0] != "XLM"@[0]);
            reveal_strlit("DOGE");
            assert("LDO"@.len() != "DOGE"@.len());
            reveal_strlit("XRP");
            assert("LDO"@[0] != "XRP"@[0]);
            reveal_strlit("SUI");
            assert("LDO"@[0] != "SUI"@[0]);
            reveal_strlit("MANA");
            assert("LDO"@.len() != "MANA"@.len());
            reveal_strlit("MATIC");
            assert("LDO"@.len() != "MATIC"@.len());
            reveal_strlit("OP");
            assert("LDO"@.len() != "OP"@.len());
            reveal_strlit("WLD");
            assert("LDO"@[0] != "WLD"@[0]);
            reveal_strlit("ADA");
            assert("LDO"@[0] != "ADA"@[0]);
            reveal_strlit("APE");
            assert("LDO"@[0] != "APE"@[0]);
            reveal_strlit("APEX");
            assert("LDO"@.len() != "APEX"@.len());
            reveal_strlit("APT");
            assert("LDO"@[0] != "APT"@[0]);
            reveal_strlit("CHZ");
            assert("LDO"@[0] != "CHZ"@[0]);
            reveal_strlit("EOS");
            assert("LDO"@[0] != "EOS"@[0]);
            reveal_strlit("GMT");
            assert("LDO"@[0] != "GMT"@[0]);
            reveal_strlit("HFT");
            assert("LDO"@[0] != "HFT"@[0]);
            reveal_strlit("ICP");
            assert("LDO"@[0] != "ICP"@[0]);
        },
        Currency::AVAX => {
            reveal_strlit("AVAX");
            reveal_strlit("BTC");
            assert("AVAX"@.len() != "BTC"@.len());
            reveal_strlit("ETH");
            assert("AVAX"@.len() != "ETH"@.len());
            reveal_strlit("SOL");
            assert("AVAX"@.len() != "SOL"@.len());
            reveal_strlit("LTC");
            assert("AVAX"@.len() != "LTC"@.len());
            reveal_strlit("ARB");
            assert("AVAX"@.len() != "ARB"@.len());
            reveal_strlit("DOT");
            assert("AVAX"@.len() != "DOT"@.len());
            reveal_strlit("FIL");
            assert("AVAX"@.len() != "FIL"@.len());
            reveal_strlit("SAND");
            assert("AVAX"@[0] != "SAND"@[0]);
            reveal_strlit("TRX");
            assert("AVAX"@.len() != "TRX"@.len());
            reveal_strlit("XLM");
            assert("AVAX"@.len() != "XLM"@.len());
            reveal_strlit("DOGE");
            assert("AVAX"@[0] != "DOGE"@[0]);
            reveal_strlit("XRP");
            assert("AVAX"@.len() != "XRP"@.len());
            reveal_strlit("SUI");
            assert("AVAX"@.len() != "SUI"@.len());
            reveal_strlit("MANA");
            assert("AVAX"@[0] != "MANA"@[0]);
            reveal_strlit("MATIC");
            assert("AVAX"@.len() != "MATIC"@.len());
            reveal_strlit("OP");
            assert("AVAX"@.len() != "OP"@.len());
            reveal_strlit("WLD");
            assert("AVAX"@.len() != "WLD"@.len());
            reveal_strlit("ADA");
            assert("AVAX"@.len() != "ADA"@.len());
            reveal_strlit("APE");
            assert("AVAX"@.len() != "APE"@.len());
            reveal_strlit("APEX");
            assert("AVAX"@[1] != "APEX"@[1]);
            reveal_strlit("APT");
            assert("AVAX"@.len() != "APT"@.len());
            reveal_strlit("CHZ");
            assert("AVAX"@.len() != "CHZ"@.len());
            reveal_strlit("EOS");
            assert("AVAX"@.len() != "EOS"@.len());
            reveal_strlit("GMT");
            assert("AVAX"@.len() != "GMT"@.len());
            reveal_strlit("HFT");
            assert("AVAX"@.len() != "HFT"@.len());
            reveal_strlit("ICP");
            assert("AVAX"@.len() != "ICP"@.len());
            reveal_strlit("LDO");
            assert("AVAX"@.len() != "LDO"@.len());
        },
        Currency::LINK => {
            reveal_strlit("LINK");
            reveal_strlit("BTC");
            assert("LINK"@.len() != "BTC"@.len());
            reveal_strlit("ETH");
            assert("LINK"@.len() != "ETH"@.len());
            reveal_strlit("SOL");
            assert("LINK"@.len() != "SOL"@.len());
            reveal_strlit("LTC");
            assert("LINK"@.len() != "LTC"@.len());
            reveal_strlit("ARB");
            assert("LINK"@.len() != "ARB"@.len());
            reveal_strlit("DOT");
            assert("LINK"@.len() != "DOT"@.len());
            reveal_strlit("FIL");
            assert("LINK"@.len() != "FIL"@.len());
            reveal_strlit("SAND");
            assert("LINK"@[0] != "SAND"@[0]);
            reveal_strlit("TRX");
            assert("LINK"@.len() != "TRX"@.len());
            reveal_strlit("XLM");
            assert("LINK"@.len() != "XLM"@.len());
            reveal_strlit("DOGE");
            assert("LINK"@[0] != "DOGE"@[0]);
            reveal_strlit("XRP");
            assert("LINK"@.len() != "XRP"@.len());
            reveal_strlit("SUI");
            assert("LINK"@.len() != "SUI"@.len());
            reveal_strlit("MANA");
            assert("LINK"@[0] != "MANA"@[0]);
            reveal_strlit("MATIC");
            assert("LINK"@.len() != "MATIC"@.len());
            reveal_strlit("OP");
            assert("LINK"@.len() != "OP"@.len());
            reveal_strlit("WLD");
            assert("LINK"@.len() != "WLD"@.len());
            reveal_strlit("ADA");
            assert("LINK"@.len() != "ADA"@.len());
            reveal_strlit("APE");
            assert("LINK"@.len() != "APE"@.len());
            reveal_strlit("APEX");
            assert("LINK"@[0] != "APEX"@[0]);
            reveal_strlit("APT");
            assert("LINK"@.len() != "APT"@.len());
            reveal_strlit("CHZ");
            assert("LINK"@.len() != "CHZ"@.len());
            reveal_strlit("EOS");
            assert("LINK"@.len() != "EOS"@.len());
            reveal_strlit("GMT");
            assert("LINK"@.len() != "GMT"@.len());
            reveal_strlit("HFT");
            assert("LINK"@.len() != "HFT"@.len());
            reveal_strlit("ICP");
            assert("LINK"@.len() != "ICP"@.len());
            reveal_strlit("LDO");
            assert("LINK"@.len() != "LDO"@.len());
            reveal_strlit("AVAX");
            assert("LINK"@[0] != "AVAX"@[0]);
        },
        Currency::FTM => {
            reveal_strlit("FTM");
            reveal_strlit("BTC");
            assert("FTM"@[0] != "BTC"@[0]);
            reveal_strlit("ETH");
            assert("FTM"@[0] != "ETH"@[0]);
            reveal_strlit("SOL");
            assert("FTM"@[0] != "SOL"@[0]);
            reveal_strlit("LTC");
            assert("FTM"@[0] != "LTC"@[0]);
            reveal_strlit("ARB");
            assert("FTM"@[0] != "ARB"@[0]);
            reveal_strlit("DOT");
            assert("FTM"@[0] != "DOT"@[0]);
            reveal_strlit("FIL");
            assert("FTM"@[1] != "FIL"@[1]);
            reveal_strlit("SAND");
            assert("FTM"@.len() != "SAND"@.len());
            reveal_strlit("TRX");
            assert("FTM"@[0] != "TRX"@[0]);
            reveal_strlit("XLM");
            assert("FTM"@[0] != "XLM"@[0]);
            reveal_strlit("DOGE");
            assert("FTM"@.len() != "DOGE"@.len());
            reveal_strlit("XRP");
            assert("FTM"@[0] != "XRP"@[0]);
            reveal_strlit("SUI");
            assert("FTM"@[0] != "SUI"@[0]);
            reveal_strlit("MANA");
            assert("FTM"@.len() != "MANA"@.len());
            reveal_strlit("MATIC");
            assert("FTM"@.len() != "MATIC"@.len());
            reveal_strlit("OP");
            assert("FTM"@.len() != "OP"@.len());
            reveal_strlit("WLD");
            assert("FTM"@[0] != "WLD"@[0]);
            reveal_strlit("ADA");
            assert("FTM"@[0] != "ADA"@[0]);
            reveal_strlit("APE");
            assert("FTM"@[0] != "APE"@[0]);
            reveal_strlit("APEX");
            assert("FTM"@.len() != "APEX"@.len());
            reveal_strlit("APT");
            assert("FTM"@[0] != "APT"@[0]);
            reveal_strlit("CHZ");
            assert("FTM"@[0] != "CHZ"@[0]);
            reveal_strlit("EOS");
            assert("FTM"@[0] != "EOS"@[0]);
            reveal_strlit("GMT");
            assert("FTM"@[0] != "GMT"@[0]);
            reveal_strlit("HFT");
            assert("FTM"@[0] != "HFT"@[0]);
            reveal_strlit("ICP");
            assert("FTM"@[0] != "ICP"@[0]);
            reveal_strlit("LDO");
            assert("FTM"@[0] != "LDO"@[0]);
            reveal_strlit("AVAX");
            assert("FTM"@.len() != "AVAX"@.len());
            reveal_strlit("LINK");
            assert("FTM"@.len() != "LINK"@.len());
        },
        Currency::USDT => {
            reveal_strlit("USDT");
            reveal_strlit("BTC");
            assert("USDT"@.len() != "BTC"@.len());
            reveal_strlit("ETH");
            assert("USDT"@.len() != "ETH"@.len());
            reveal_strlit("SOL");
            assert("USDT"@.len() != "SOL"@.len());
            reveal_strlit("LTC");
            assert("USDT"@.len() != "LTC"@.len());
            reveal_strlit("ARB");
            assert("USDT"@.len() != "ARB"@.len());
            reveal_strlit("DOT");
            assert("USDT"@.len() != "DOT"@.len());
            reveal_strlit("FIL");
            assert("USDT"@.len() != "FIL"@.len());
            reveal_strlit("SAND");
            assert("USDT"@[0] != "SAND"@[0]);
            reveal_strlit("TRX");
            assert("USDT"@.len() != "TRX"@.len());
            reveal_strlit("XLM");
            assert("USDT"@.len() != "XLM"@.len());
            reveal_strlit("DOGE");
            assert("USDT"@[0] != "DOGE"@[0]);
            reveal_strlit("XRP");
            assert("USDT"@.len() != "XRP"@.len());
            reveal_strlit("SUI");
            assert("USDT"@.len() != "SUI"@.len());
            reveal_strlit("MANA");
            assert("USDT"@[0] != "MANA"@[0]);
            reveal_strlit("MATIC");
            assert("USDT"@.len() != "MATIC"@.len());
            reveal_strlit("OP");
            assert("USDT"@.len() != "OP"@.len());
            reveal_strlit("WLD");
            assert("USDT"@.len() != "WLD"@.len());
            reveal_strlit("ADA");
            assert("USDT"@.len() != "ADA"@.len());
            reveal_strlit("APE");
            assert("USDT"@.len() != "APE"@.len());
            reveal_strlit("APEX");
            assert("USDT"@[0] != "APEX"@[0]);
            reveal_strlit("APT");
            assert("USDT"@.len() != "APT"@.len());
            reveal_strlit("CHZ");
            assert("USDT"@.len() != "CHZ"@.len());
            reveal_strlit("EOS");
            assert("USDT"@.len() != "EOS"@.len());
            reveal_strlit("GMT");
            assert("USDT"@.len() != "GMT"@.len());
            reveal_strlit("HFT");
            assert("USDT"@.len() != "HFT"@.len());
            reveal_strlit("ICP");
            assert("USDT"@.len() != "ICP"@.len());
            reveal_strlit("LDO");
            assert("USDT"@.len() != "LDO"@.len());
            reveal_strlit("AVAX");
            assert("USDT"@[0] != "AVAX"@[0]);
            reveal_strlit("LINK");
            assert("USDT"@[0] != "LINK"@[0]);
            reveal_strlit("FTM");
            assert("USDT"@.len() != "FTM"@.len());
        },
    }
}

/// Two currencies traded against each other: `target` is bought or sold,
/// priced in `source`.
#[derive(Clone, Copy, Debug, PartialEq, Eq, Structural)]
pub struct CurrencyPair {
    pub target: Currency,
    pub source: Currency,
}

/// An instrument: a currency pair on a market of an exchange.
#[derive(Clone, Copy, Debug, PartialEq, Eq, Structural)]
pub struct InstrumentId {
    pub exchange: Exchange,
    pub market_type: MarketType,
    pub pair: CurrencyPair,
}

} // verus!

verus! {

/// What happened to a deployment.
#[derive(Clone, Copy, Debug, PartialEq, Eq, Structural)]
pub enum DeploymentEvent {
    Created,
    Deleted,
}

/// A strategy deployment and the instruments it watches.
#[derive(Clone, Debug)]
pub struct Deployment {
    pub id: u128,
    pub simulation_id: Option<u128>,
    pub strategy_name: String,
    pub strategy_version: i64,
    pub event: DeploymentEvent,
    pub subscriptions: Vec<InstrumentId>,
}

} // verus!

verus! {

/// Direction of an order or a position.
#[derive(Clone, Copy, Debug, PartialEq, Eq, Structural)]
pub enum Side {
    Buy,
    Sell,
}

/// How margin is shared between positions.
#[derive(Clone, Copy, Debug, PartialEq, Eq, Structural)]
pub enum MarginMode {
    /// Margin shared across positions, held in the given currency.
    Cross(Currency),
    /// Margin held per position.
    Isolated,
}

/// Market on which an order trades.
#[derive(Clone, Copy, Debug, PartialEq, Eq, Structural)]
pub enum OrderMarketType {
    Spot,
    Margin(MarginMode),
}

/// Life-cycle state of an order.
#[derive(Clone, Debug)]
pub enum OrderStatus {
    Created,
    InProgress,
    Completed,
    Canceled,
    Failed(String),
}

/// The mathematical value of an [`OrderStatus`].
pub enum OrderStatusView {
    Created,
    InProgress,
    Completed,
    Canceled,
    Failed(Seq<char>),
}

impl View for OrderStatus {
    type V = OrderStatusView;

    open spec fn view(&self) -> OrderStatusView {
        match self {
            OrderStatus::Created => OrderStatusView::Created,
            OrderStatus::InProgress => OrderStatusView::InProgress,
            OrderStatus::Completed => OrderStatusView::Completed,
            OrderStatus::Canceled => OrderStatusView::Canceled,
            OrderStatus::Failed(message) => OrderStatusView::Failed(message@),
        }
    }
}

impl OrderStatus {
    /// Whether the order is completed.
    pub fn is_completed(&self) -> (completed: bool)
        ensures
            completed == (self@ is Completed),
    {
        match self {
            OrderStatus::Completed => true,
            _ => false,
        }
    }
}

/// The spot BTC/USDT instrument on OKX that the end-to-end strategies trade.
pub open spec fn okx_spot_btc_usdt() -> InstrumentId {
    InstrumentId {
        exchange: Exchange::OKX,
        market_type: MarketType::Spot,
        pair: CurrencyPair { target: Currency::BTC, source: Currency::USDT },
    }
}

/// The spot BTC/USDT instrument on OKX alone.
pub fn okx_spot_btc_usdt_only() -> (instruments: Vec<InstrumentId>)
    ensures
        instruments@ == seq![okx_spot_btc_usdt()],
{
    let mut instruments: Vec<InstrumentId> = Vec::new();
    instruments.push(
        InstrumentId {
            exchange: Exchange::OKX,
            market_type: MarketType::Spot,
            pair: CurrencyPair { target: Currency::BTC, source: Currency::USDT },
        },
    );
    assert(instruments@ =~= seq![okx_spot_btc_usdt()]);
    instruments
}

} // verus!

verus! {

/// Length of the period a candle covers.
#[derive(Clone, Copy, Debug, PartialEq, Eq, Structural)]
pub enum Timeframe {
    OneS,
    OneM,
    FiveM,
    FifteenM,
    ThirtyM,
    OneH,
    TwoH,
    FourH,
    OneD,
}

/// Whether a candle's period is still running.
#[derive(Clone, Copy, Debug, PartialEq, Eq, Structural)]
pub enum CandleStatus {
    Open,
    Close,
}

} // verus!

verus! {

/// A ticker symbol is a non-empty run of capital letters.
pub open spec fn is_ticker_text(s: Seq<char>) -> bool {
    &&& s.len() > 0
    &&& forall|i: int| 0 <= i < s.len() ==> 'A' <= #[trigger] s[i] <= 'Z'
}

/// Every ticker symbol is a non-empty run of capital letters.
pub proof fn lemma_currency_name_is_ticker_text(c: Currency)
    ensures
        is_ticker_text(currency_name(c)),
{
    match c {
        Currency::BTC => {
            reveal_strlit("BTC");
        },
        Currency::ETH => {
            reveal_strlit("ETH");
        },
        Currency::SOL => {
            reveal_strlit("SOL");
        },
        Currency::LTC => {
            reveal_strlit("LTC");
        },
        Currency::ARB => {
            reveal_strlit("ARB");
        },
        Currency::DOT => {
            reveal_strlit("DOT");
        },
        Currency::FIL => {
            reveal_strlit("FIL");
        },
        Currency::SAND => {
            reveal_strlit("SAND");
        },
        Currency::TRX => {
            reveal_strlit("TRX");
        },
        Currency::XLM => {
            reveal_strlit("XLM");
        },
        Currency::DOGE => {
            reveal_strlit("DOGE");
        },
        Currency::XRP => {
            reveal_strlit("XRP");
        },
        Currency::SUI => {
            reveal_strlit("SUI");
        },
        Currency::MANA => {
            reveal_strlit("MANA");
        },
        Currency::MATIC => {
            reveal_strlit("MATIC");
        },
        Currency::OP => {
            reveal_strlit("OP");
        },
        Currency::WLD => {
            reveal_strlit("WLD");
        },
        Currency::ADA => {
            reveal_strlit("ADA");
        },
        Currency::APE => {
            reveal_strlit("APE");
        },
        Currency::APEX => {
            reveal_strlit("APEX");
        },
        Currency::APT => {
            reveal_strlit("APT");
        },
        Currency::CHZ => {
            reveal_strlit("CHZ");
        },
        Currency::EOS => {
            reveal_strlit("EOS");
        },
        Currency::GMT => {
            reveal_strlit("GMT");
        },
        Currency::HFT => {
            reveal_strlit("HFT");
        },
        Currency::ICP => {
            reveal_strlit("ICP");
        },
        Currency::LDO => {
            reveal_strlit("LDO");
        },
        Currency::AVAX => {
            reveal_strlit("AVAX");
        },
        Currency::LINK => {
            reveal_strlit("LINK");
        },
        Currency::FTM => {
            reveal_strlit("FTM");
        },
        Currency::USDT => {
            reveal_strlit("USDT");
        },
    }
}

} // verus!

verus! {

/// The parts a candle's identifier is written from, in order: exchange,
/// market, target and source currencies, period and timestamp, joined by
/// underscores in their display text.
#[derive(Clone, Copy, Debug, PartialEq, Eq, Structural)]
pub struct CandleId {
    pub exchange: Exchange,
    pub market_type: MarketType,
    pub target: Currency,
    pub source: Currency,
    pub timeframe: Timeframe,
    pub timestamp: i64,
}

/// A candle without its time and prices, which are read from the message.
#[derive(Clone, Copy, Debug, PartialEq, Eq, Structural)]
pub struct CandleShape {
    pub id: CandleId,
    pub status: CandleStatus,
    pub instrument_id: InstrumentId,
    pub timeframe: Timeframe,
}

} // verus!

verus! {

/// The length of a candle period, in seconds.
pub open spec fn period_seconds(timeframe: Timeframe) -> int {
    match timeframe {
        Timeframe::OneS => 1,
        Timeframe::OneM => 60,
        Timeframe::FiveM => 300,
        Timeframe::FifteenM => 900,
        Timeframe::ThirtyM => 1800,
        Timeframe::OneH => 3600,
        Timeframe::TwoH => 7200,
        Timeframe::FourH => 14400,
        Timeframe::OneD => 86400,
    }
}

} // verus!

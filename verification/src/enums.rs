//! The closed enumerations of the wire vocabulary.
//!
//! Each of these types pairs its variants with a fixed set of string
//! codes.  Decoding maps a wire string through the fixed lookup and
//! fails on any string outside the vocabulary; it never defaults.

use vstd::prelude::*;
use crate::json::str_eq;

verus! {

/// Currencies the service recognises, by ISO 4217 code.
#[derive(Debug, Clone, Copy, PartialEq, Eq, Structural)]
pub enum Currency {
    Aud,
    Usd,
    Nzd,
    Gbp,
    Eur,
    Cad,
    Jpy,
    Sgd,
    Hkd,
    Chf,
    Cny,
    Inr,
    Zar,
    Sek,
    Nok,
    Dkk,
    Pln,
    Thb,
    Myr,
    Idr,
    Php,
    Krw,
    Twd,
    Brl,
    Mxn,
    Aed,
    Ils,
    Czk,
    Huf,
    Try,
}

impl Currency {
    /// The wire code of this value.
    pub open spec fn spec_code(self) -> Seq<char> {
        match self {
            Currency::Aud => "AUD"@,
            Currency::Usd => "USD"@,
            Currency::Nzd => "NZD"@,
            Currency::Gbp => "GBP"@,
            Currency::Eur => "EUR"@,
            Currency::Cad => "CAD"@,
            Currency::Jpy => "JPY"@,
            Currency::Sgd => "SGD"@,
            Currency::Hkd => "HKD"@,
            Currency::Chf => "CHF"@,
            Currency::Cny => "CNY"@,
            Currency::Inr => "INR"@,
            Currency::Zar => "ZAR"@,
            Currency::Sek => "SEK"@,
            Currency::Nok => "NOK"@,
            Currency::Dkk => "DKK"@,
            Currency::Pln => "PLN"@,
            Currency::Thb => "THB"@,
            Currency::Myr => "MYR"@,
            Currency::Idr => "IDR"@,
            Currency::Php => "PHP"@,
            Currency::Krw => "KRW"@,
            Currency::Twd => "TWD"@,
            Currency::Brl => "BRL"@,
            Currency::Mxn => "MXN"@,
            Currency::Aed => "AED"@,
            Currency::Ils => "ILS"@,
            Currency::Czk => "CZK"@,
            Currency::Huf => "HUF"@,
            Currency::Try => "TRY"@,
        }
    }

    /// Whether some variant of the vocabulary carries the code `s`.
    pub open spec fn spec_known_code(s: Seq<char>) -> bool {
        exists|c: Currency| (#[trigger] c.spec_code()) == s
    }

    /// The variant carrying a wire code, when the vocabulary has it.
    pub open spec fn spec_from_code(s: Seq<char>) -> Option<Currency> {
        if s == "AUD"@ {
            Some(Currency::Aud)
        } else if s == "USD"@ {
            Some(Currency::Usd)
        } else if s == "NZD"@ {
            Some(Currency::Nzd)
        } else if s == "GBP"@ {
            Some(Currency::Gbp)
        } else if s == "EUR"@ {
            Some(Currency::Eur)
        } else if s == "CAD"@ {
            Some(Currency::Cad)
        } else if s == "JPY"@ {
            Some(Currency::Jpy)
        } else if s == "SGD"@ {
            Some(Currency::Sgd)
        } else if s == "HKD"@ {
            Some(Currency::Hkd)
        } else if s == "CHF"@ {
            Some(Currency::Chf)
        } else if s == "CNY"@ {
            Some(Currency::Cny)
        } else if s == "INR"@ {
            Some(Currency::Inr)
        } else if s == "ZAR"@ {
            Some(Currency::Zar)
        } else if s == "SEK"@ {
            Some(Currency::Sek)
        } else if s == "NOK"@ {
            Some(Currency::Nok)
        } else if s == "DKK"@ {
            Some(Currency::Dkk)
        } else if s == "PLN"@ {
            Some(Currency::Pln)
        } else if s == "THB"@ {
            Some(Currency::Thb)
        } else if s == "MYR"@ {
            Some(Currency::Myr)
        } else if s == "IDR"@ {
            Some(Currency::Idr)
        } else if s == "PHP"@ {
            Some(Currency::Php)
        } else if s == "KRW"@ {
            Some(Currency::Krw)
        } else if s == "TWD"@ {
            Some(Currency::Twd)
        } else if s == "BRL"@ {
            Some(Currency::Brl)
        } else if s == "MXN"@ {
            Some(Currency::Mxn)
        } else if s == "AED"@ {
            Some(Currency::Aed)
        } else if s == "ILS"@ {
            Some(Currency::Ils)
        } else if s == "CZK"@ {
            Some(Currency::Czk)
        } else if s == "HUF"@ {
            Some(Currency::Huf)
        } else if s == "TRY"@ {
            Some(Currency::Try)
        } else {
            None
        }
    }

    /// The wire code of this value.
    pub fn code(&self) -> (r: &'static str)
        ensures
            r@ == self.spec_code(),
    {
        match self {
            Currency::Aud => "AUD",
            Currency::Usd => "USD",
            Currency::Nzd => "NZD",
            Currency::Gbp => "GBP",
            Currency::Eur => "EUR",
            Currency::Cad => "CAD",
            Currency::Jpy => "JPY",
            Currency::Sgd => "SGD",
            Currency::Hkd => "HKD",
            Currency::Chf => "CHF",
            Currency::Cny => "CNY",
            Currency::Inr => "INR",
            Currency::Zar => "ZAR",
            Currency::Sek => "SEK",
            Currency::Nok => "NOK",
            Currency::Dkk => "DKK",
            Currency::Pln => "PLN",
            Currency::Thb => "THB",
            Currency::Myr => "MYR",
            Currency::Idr => "IDR",
            Currency::Php => "PHP",
            Currency::Krw => "KRW",
            Currency::Twd => "TWD",
            Currency::Brl => "BRL",
            Currency::Mxn => "MXN",
            Currency::Aed => "AED",
            Currency::Ils => "ILS",
            Currency::Czk => "CZK",
            Currency::Huf => "HUF",
            Currency::Try => "TRY",
        }
    }

    /// Looks a wire code up.  A string outside the vocabulary gives
    /// `None`; nothing is defaulted.
    pub fn from_code(s: &str) -> (r: Option<Currency>)
        ensures
            r == Self::spec_from_code(s@),
    {
        if str_eq(s, "AUD") {
            Some(Currency::Aud)
        } else if str_eq(s, "USD") {
            Some(Currency::Usd)
        } else if str_eq(s, "NZD") {
            Some(Currency::Nzd)
        } else if str_eq(s, "GBP") {
            Some(Currency::Gbp)
        } else if str_eq(s, "EUR") {
            Some(Currency::Eur)
        } else if str_eq(s, "CAD") {
            Some(Currency::Cad)
        } else if str_eq(s, "JPY") {
            Some(Currency::Jpy)
        } else if str_eq(s, "SGD") {
            Some(Currency::Sgd)
        } else if str_eq(s, "HKD") {
            Some(Currency::Hkd)
        } else if str_eq(s, "CHF") {
            Some(Currency::Chf)
        } else if str_eq(s, "CNY") {
            Some(Currency::Cny)
        } else if str_eq(s, "INR") {
            Some(Currency::Inr)
        } else if str_eq(s, "ZAR") {
            Some(Currency::Zar)
        } else if str_eq(s, "SEK") {
            Some(Currency::Sek)
        } else if str_eq(s, "NOK") {
            Some(Currency::Nok)
        } else if str_eq(s, "DKK") {
            Some(Currency::Dkk)
        } else if str_eq(s, "PLN") {
            Some(Currency::Pln)
        } else if str_eq(s, "THB") {
            Some(Currency::Thb)
        } else if str_eq(s, "MYR") {
            Some(Currency::Myr)
        } else if str_eq(s, "IDR") {
            Some(Currency::Idr)
        } else if str_eq(s, "PHP") {
            Some(Currency::Php)
        } else if str_eq(s, "KRW") {
            Some(Currency::Krw)
        } else if str_eq(s, "TWD") {
            Some(Currency::Twd)
        } else if str_eq(s, "BRL") {
            Some(Currency::Brl)
        } else if str_eq(s, "MXN") {
            Some(Currency::Mxn)
        } else if str_eq(s, "AED") {
            Some(Currency::Aed)
        } else if str_eq(s, "ILS") {
            Some(Currency::Ils)
        } else if str_eq(s, "CZK") {
            Some(Currency::Czk)
        } else if str_eq(s, "HUF") {
            Some(Currency::Huf)
        } else if str_eq(s, "TRY") {
            Some(Currency::Try)
        } else {
            None
        }
    }

    /// Every wire code maps back to the variant that carries it.
    pub proof fn lemma_code_round_trip(c: Currency)
        ensures
            Self::spec_from_code(c.spec_code()) == Some(c),
    {
        reveal_strlit("AUD");
        reveal_strlit("USD");
        reveal_strlit("NZD");
        reveal_strlit("GBP");
        reveal_strlit("EUR");
        reveal_strlit("CAD");
        reveal_strlit("JPY");
        reveal_strlit("SGD");
        reveal_strlit("HKD");
        reveal_strlit("CHF");
        reveal_strlit("CNY");
        reveal_strlit("INR");
        reveal_strlit("ZAR");
        reveal_strlit("SEK");
        reveal_strlit("NOK");
        reveal_strlit("DKK");
        reveal_strlit("PLN");
        reveal_strlit("THB");
        reveal_strlit("MYR");
        reveal_strlit("IDR");
        reveal_strlit("PHP");
        reveal_strlit("KRW");
        reveal_strlit("TWD");
        reveal_strlit("BRL");
        reveal_strlit("MXN");
        reveal_strlit("AED");
        reveal_strlit("ILS");
        reveal_strlit("CZK");
        reveal_strlit("HUF");
        reveal_strlit("TRY");
        assert("AUD"@.len() == 3);
        assert("AUD"@[0] == 'A');
        assert("AUD"@[1] == 'U');
        assert("AUD"@[2] == 'D');
        assert("USD"@.len() == 3);
        assert("USD"@[0] == 'U');
        assert("USD"@[1] == 'S');
        assert("USD"@[2] == 'D');
        assert("NZD"@.len() == 3);
        assert("NZD"@[0] == 'N');
        assert("NZD"@[1] == 'Z');
        assert("NZD"@[2] == 'D');
        assert("GBP"@.len() == 3);
        assert("GBP"@[0] == 'G');
        assert("GBP"@[1] == 'B');
        assert("GBP"@[2] == 'P');
        assert("EUR"@.len() == 3);
        assert("EUR"@[0] == 'E');
        assert("EUR"@[1] == 'U');
        assert("EUR"@[2] == 'R');
        assert("CAD"@.len() == 3);
        assert("CAD"@[0] == 'C');
        assert("CAD"@[1] == 'A');
        assert("CAD"@[2] == 'D');
        assert("JPY"@.len() == 3);
        assert("JPY"@[0] == 'J');
        assert("JPY"@[1] == 'P');
        assert("JPY"@[2] == 'Y');
        assert("SGD"@.len() == 3);
        assert("SGD"@[0] == 'S');
        assert("SGD"@[1] == 'G');
        assert("SGD"@[2] == 'D');
        assert("HKD"@.len() == 3);
        assert("HKD"@[0] == 'H');
        assert("HKD"@[1] == 'K');
        assert("HKD"@[2] == 'D');
        assert("CHF"@.len() == 3);
        assert("CHF"@[0] == 'C');
        assert("CHF"@[1] == 'H');
        assert("CHF"@[2] == 'F');
        assert("CNY"@.len() == 3);
        assert("CNY"@[0] == 'C');
        assert("CNY"@[1] == 'N');
        assert("CNY"@[2] == 'Y');
        assert("INR"@.len() == 3);
        assert("INR"@[0] == 'I');
        assert("INR"@[1] == 'N');
        assert("INR"@[2] == 'R');
        assert("ZAR"@.len() == 3);
        assert("ZAR"@[0] == 'Z');
        assert("ZAR"@[1] == 'A');
        assert("ZAR"@[2] == 'R');
        assert("SEK"@.len() == 3);
        assert("SEK"@[0] == 'S');
        assert("SEK"@[1] == 'E');
        assert("SEK"@[2] == 'K');
        assert("NOK"@.len() == 3);
        assert("NOK"@[0] == 'N');
        assert("NOK"@[1] == 'O');
        assert("NOK"@[2] == 'K');
        assert("DKK"@.len() == 3);
        assert("DKK"@[0] == 'D');
        assert("DKK"@[1] == 'K');
        assert("DKK"@[2] == 'K');
        assert("PLN"@.len() == 3);
        assert("PLN"@[0] == 'P');
        assert("PLN"@[1] == 'L');
        assert("PLN"@[2] == 'N');
        assert("THB"@.len() == 3);
        assert("THB"@[0] == 'T');
        assert("THB"@[1] == 'H');
        assert("THB"@[2] == 'B');
        assert("MYR"@.len() == 3);
        assert("MYR"@[0] == 'M');
        assert("MYR"@[1] == 'Y');
        assert("MYR"@[2] == 'R');
        assert("IDR"@.len() == 3);
        assert("IDR"@[0] == 'I');
        assert("IDR"@[1] == 'D');
        assert("IDR"@[2] == 'R');
        assert("PHP"@.len() == 3);
        assert("PHP"@[0] == 'P');
        assert("PHP"@[1] == 'H');
        assert("PHP"@[2] == 'P');
        assert("KRW"@.len() == 3);
        assert("KRW"@[0] == 'K');
        assert("KRW"@[1] == 'R');
        assert("KRW"@[2] == 'W');
        assert("TWD"@.len() == 3);
        assert("TWD"@[0] == 'T');
        assert("TWD"@[1] == 'W');
        assert("TWD"@[2] == 'D');
        assert("BRL"@.len() == 3);
        assert("BRL"@[0] == 'B');
        assert("BRL"@[1] == 'R');
        assert("BRL"@[2] == 'L');
        assert("MXN"@.len() == 3);
        assert("MXN"@[0] == 'M');
        assert("MXN"@[1] == 'X');
        assert("MXN"@[2] == 'N');
        assert("AED"@.len() == 3);
        assert("AED"@[0] == 'A');
        assert("AED"@[1] == 'E');
        assert("AED"@[2] == 'D');
        assert("ILS"@.len() == 3);
        assert("ILS"@[0] == 'I');
        assert("ILS"@[1] == 'L');
        assert("ILS"@[2] == 'S');
        assert("CZK"@.len() == 3);
        assert("CZK"@[0] == 'C');
        assert("CZK"@[1] == 'Z');
        assert("CZK"@[2] == 'K');
        assert("HUF"@.len() == 3);
        assert("HUF"@[0] == 'H');
        assert("HUF"@[1] == 'U');
        assert("HUF"@[2] == 'F');
        assert("TRY"@.len() == 3);
        assert("TRY"@[0] == 'T');
        assert("TRY"@[1] == 'R');
        assert("TRY"@[2] == 'Y');
        match c {
            Currency::Aud => {},
            Currency::Usd => {},
            Currency::Nzd => {},
            Currency::Gbp => {},
            Currency::Eur => {},
            Currency::Cad => {},
            Currency::Jpy => {},
            Currency::Sgd => {},
            Currency::Hkd => {},
            Currency::Chf => {},
            Currency::Cny => {},
            Currency::Inr => {},
            Currency::Zar => {},
            Currency::Sek => {},
            Currency::Nok => {},
            Currency::Dkk => {},
            Currency::Pln => {},
            Currency::Thb => {},
            Currency::Myr => {},
            Currency::Idr => {},
            Currency::Php => {},
            Currency::Krw => {},
            Currency::Twd => {},
            Currency::Brl => {},
            Currency::Mxn => {},
            Currency::Aed => {},
            Currency::Ils => {},
            Currency::Czk => {},
            Currency::Huf => {},
            Currency::Try => {},
        }
    }

    /// The lookup accepts exactly the vocabulary: it gives a value
    /// if and only if some variant carries the code.
    pub proof fn lemma_from_code_exact(s: Seq<char>)
        ensures
            Self::spec_from_code(s) is Some <==> Self::spec_known_code(s),
    {
        assert(Currency::Aud.spec_code() == "AUD"@);
        assert(Currency::Usd.spec_code() == "USD"@);
        assert(Currency::Nzd.spec_code() == "NZD"@);
        assert(Currency::Gbp.spec_code() == "GBP"@);
        assert(Currency::Eur.spec_code() == "EUR"@);
        assert(Currency::Cad.spec_code() == "CAD"@);
        assert(Currency::Jpy.spec_code() == "JPY"@);
        assert(Currency::Sgd.spec_code() == "SGD"@);
        assert(Currency::Hkd.spec_code() == "HKD"@);
        assert(Currency::Chf.spec_code() == "CHF"@);
        assert(Currency::Cny.spec_code() == "CNY"@);
        assert(Currency::Inr.spec_code() == "INR"@);
        assert(Currency::Zar.spec_code() == "ZAR"@);
        assert(Currency::Sek.spec_code() == "SEK"@);
        assert(Currency::Nok.spec_code() == "NOK"@);
        assert(Currency::Dkk.spec_code() == "DKK"@);
        assert(Currency::Pln.spec_code() == "PLN"@);
        assert(Currency::Thb.spec_code() == "THB"@);
        assert(Currency::Myr.spec_code() == "MYR"@);
        assert(Currency::Idr.spec_code() == "IDR"@);
        assert(Currency::Php.spec_code() == "PHP"@);
        assert(Currency::Krw.spec_code() == "KRW"@);
        assert(Currency::Twd.spec_code() == "TWD"@);
        assert(Currency::Brl.spec_code() == "BRL"@);
        assert(Currency::Mxn.spec_code() == "MXN"@);
        assert(Currency::Aed.spec_code() == "AED"@);
        assert(Currency::Ils.spec_code() == "ILS"@);
        assert(Currency::Czk.spec_code() == "CZK"@);
        assert(Currency::Huf.spec_code() == "HUF"@);
        assert(Currency::Try.spec_code() == "TRY"@);
        if Self::spec_known_code(s) {
            let c = choose|c: Currency| (#[trigger] c.spec_code()) == s;
            match c {
                Currency::Aud => {},
                Currency::Usd => {},
                Currency::Nzd => {},
                Currency::Gbp => {},
                Currency::Eur => {},
                Currency::Cad => {},
                Currency::Jpy => {},
                Currency::Sgd => {},
                Currency::Hkd => {},
                Currency::Chf => {},
                Currency::Cny => {},
                Currency::Inr => {},
                Currency::Zar => {},
                Currency::Sek => {},
                Currency::Nok => {},
                Currency::Dkk => {},
                Currency::Pln => {},
                Currency::Thb => {},
                Currency::Myr => {},
                Currency::Idr => {},
                Currency::Php => {},
                Currency::Krw => {},
                Currency::Twd => {},
                Currency::Brl => {},
                Currency::Mxn => {},
                Currency::Aed => {},
                Currency::Ils => {},
                Currency::Czk => {},
                Currency::Huf => {},
                Currency::Try => {},
            }
        }
    }
}

/// Countries the service recognises, by ISO 3166 alpha-2 code.
#[derive(Debug, Clone, Copy, PartialEq, Eq, Structural)]
pub enum Country {
    Au,
    Us,
    Nz,
    Gb,
    Ie,
    Ca,
    Jp,
    Sg,
    Hk,
    Ch,
    Cn,
    In,
    Za,
    Se,
    No,
    Dk,
    Pl,
    Th,
    My,
    Id,
    Ph,
    Kr,
    Tw,
    De,
}

impl Country {
    /// The wire code of this value.
    pub open spec fn spec_code(self) -> Seq<char> {
        match self {
            Country::Au => "AU"@,
            Country::Us => "US"@,
            Country::Nz => "NZ"@,
            Country::Gb => "GB"@,
            Country::Ie => "IE"@,
            Country::Ca => "CA"@,
            Country::Jp => "JP"@,
            Country::Sg => "SG"@,
            Country::Hk => "HK"@,
            Country::Ch => "CH"@,
            Country::Cn => "CN"@,
            Country::In => "IN"@,
            Country::Za => "ZA"@,
            Country::Se => "SE"@,
            Country::No => "NO"@,
            Country::Dk => "DK"@,
            Country::Pl => "PL"@,
            Country::Th => "TH"@,
            Country::My => "MY"@,
            Country::Id => "ID"@,
            Country::Ph => "PH"@,
            Country::Kr => "KR"@,
            Country::Tw => "TW"@,
            Country::De => "DE"@,
        }
    }

    /// Whether some variant of the vocabulary carries the code `s`.
    pub open spec fn spec_known_code(s: Seq<char>) -> bool {
        exists|c: Country| (#[trigger] c.spec_code()) == s
    }

    /// The variant carrying a wire code, when the vocabulary has it.
    pub open spec fn spec_from_code(s: Seq<char>) -> Option<Country> {
        if s == "AU"@ {
            Some(Country::Au)
        } else if s == "US"@ {
            Some(Country::Us)
        } else if s == "NZ"@ {
            Some(Country::Nz)
        } else if s == "GB"@ {
            Some(Country::Gb)
        } else if s == "IE"@ {
            Some(Country::Ie)
        } else if s == "CA"@ {
            Some(Country::Ca)
        } else if s == "JP"@ {
            Some(Country::Jp)
        } else if s == "SG"@ {
            Some(Country::Sg)
        } else if s == "HK"@ {
            Some(Country::Hk)
        } else if s == "CH"@ {
            Some(Country::Ch)
        } else if s == "CN"@ {
            Some(Country::Cn)
        } else if s == "IN"@ {
            Some(Country::In)
        } else if s == "ZA"@ {
            Some(Country::Za)
        } else if s == "SE"@ {
            Some(Country::Se)
        } else if s == "NO"@ {
            Some(Country::No)
        } else if s == "DK"@ {
            Some(Country::Dk)
        } else if s == "PL"@ {
            Some(Country::Pl)
        } else if s == "TH"@ {
            Some(Country::Th)
        } else if s == "MY"@ {
            Some(Country::My)
        } else if s == "ID"@ {
            Some(Country::Id)
        } else if s == "PH"@ {
            Some(Country::Ph)
        } else if s == "KR"@ {
            Some(Country::Kr)
        } else if s == "TW"@ {
            Some(Country::Tw)
        } else if s == "DE"@ {
            Some(Country::De)
        } else {
            None
        }
    }

    /// The wire code of this value.
    pub fn code(&self) -> (r: &'static str)
        ensures
            r@ == self.spec_code(),
    {
        match self {
            Country::Au => "AU",
            Country::Us => "US",
            Country::Nz => "NZ",
            Country::Gb => "GB",
            Country::Ie => "IE",
            Country::Ca => "CA",
            Country::Jp => "JP",
            Country::Sg => "SG",
            Country::Hk => "HK",
            Country::Ch => "CH",
            Country::Cn => "CN",
            Country::In => "IN",
            Country::Za => "ZA",
            Country::Se => "SE",
            Country::No => "NO",
            Country::Dk => "DK",
            Country::Pl => "PL",
            Country::Th => "TH",
            Country::My => "MY",
            Country::Id => "ID",
            Country::Ph => "PH",
            Country::Kr => "KR",
            Country::Tw => "TW",
            Country::De => "DE",
        }
    }

    /// Looks a wire code up.  A string outside the vocabulary gives
    /// `None`; nothing is defaulted.
    pub fn from_code(s: &str) -> (r: Option<Country>)
        ensures
            r == Self::spec_from_code(s@),
    {
        if str_eq(s, "AU") {
            Some(Country::Au)
        } else if str_eq(s, "US") {
            Some(Country::Us)
        } else if str_eq(s, "NZ") {
            Some(Country::Nz)
        } else if str_eq(s, "GB") {
            Some(Country::Gb)
        } else if str_eq(s, "IE") {
            Some(Country::Ie)
        } else if str_eq(s, "CA") {
            Some(Country::Ca)
        } else if str_eq(s, "JP") {
            Some(Country::Jp)
        } else if str_eq(s, "SG") {
            Some(Country::Sg)
        } else if str_eq(s, "HK") {
            Some(Country::Hk)
        } else if str_eq(s, "CH") {
            Some(Country::Ch)
        } else if str_eq(s, "CN") {
            Some(Country::Cn)
        } else if str_eq(s, "IN") {
            Some(Country::In)
        } else if str_eq(s, "ZA") {
            Some(Country::Za)
        } else if str_eq(s, "SE") {
            Some(Country::Se)
        } else if str_eq(s, "NO") {
            Some(Country::No)
        } else if str_eq(s, "DK") {
            Some(Country::Dk)
        } else if str_eq(s, "PL") {
            Some(Country::Pl)
        } else if str_eq(s, "TH") {
            Some(Country::Th)
        } else if str_eq(s, "MY") {
            Some(Country::My)
        } else if str_eq(s, "ID") {
            Some(Country::Id)
        } else if str_eq(s, "PH") {
            Some(Country::Ph)
        } else if str_eq(s, "KR") {
            Some(Country::Kr)
        } else if str_eq(s, "TW") {
            Some(Country::Tw)
        } else if str_eq(s, "DE") {
            Some(Country::De)
        } else {
            None
        }
    }

    /// Every wire code maps back to the variant that carries it.
    pub proof fn lemma_code_round_trip(c: Country)
        ensures
            Self::spec_from_code(c.spec_code()) == Some(c),
    {
        reveal_strlit("AU");
        reveal_strlit("US");
        reveal_strlit("NZ");
        reveal_strlit("GB");
        reveal_strlit("IE");
        reveal_strlit("CA");
        reveal_strlit("JP");
        reveal_strlit("SG");
        reveal_strlit("HK");
        reveal_strlit("CH");
        reveal_strlit("CN");
        reveal_strlit("IN");
        reveal_strlit("ZA");
        reveal_strlit("SE");
        reveal_strlit("NO");
        reveal_strlit("DK");
        reveal_strlit("PL");
        reveal_strlit("TH");
        reveal_strlit("MY");
        reveal_strlit("ID");
        reveal_strlit("PH");
        reveal_strlit("KR");
        reveal_strlit("TW");
        reveal_strlit("DE");
        assert("AU"@.len() == 2);
        assert("AU"@[0] == 'A');
        assert("AU"@[1] == 'U');
        assert("US"@.len() == 2);
        assert("US"@[0] == 'U');
        assert("US"@[1] == 'S');
        assert("NZ"@.len() == 2);
        assert("NZ"@[0] == 'N');
        assert("NZ"@[1] == 'Z');
        assert("GB"@.len() == 2);
        assert("GB"@[0] == 'G');
        assert("GB"@[1] == 'B');
        assert("IE"@.len() == 2);
        assert("IE"@[0] == 'I');
        assert("IE"@[1] == 'E');
        assert("CA"@.len() == 2);
        assert("CA"@[0] == 'C');
        assert("CA"@[1] == 'A');
        assert("JP"@.len() == 2);
        assert("JP"@[0] == 'J');
        assert("JP"@[1] == 'P');
        assert("SG"@.len() == 2);
        assert("SG"@[0] == 'S');
        assert("SG"@[1] == 'G');
        assert("HK"@.len() == 2);
        assert("HK"@[0] == 'H');
        assert("HK"@[1] == 'K');
        assert("CH"@.len() == 2);
        assert("CH"@[0] == 'C');
        assert("CH"@[1] == 'H');
        assert("CN"@.len() == 2);
        assert("CN"@[0] == 'C');
        assert("CN"@[1] == 'N');
        assert("IN"@.len() == 2);
        assert("IN"@[0] == 'I');
        assert("IN"@[1] == 'N');
        assert("ZA"@.len() == 2);
        assert("ZA"@[0] == 'Z');
        assert("ZA"@[1] == 'A');
        assert("SE"@.len() == 2);
        assert("SE"@[0] == 'S');
        assert("SE"@[1] == 'E');
        assert("NO"@.len() == 2);
        assert("NO"@[0] == 'N');
        assert("NO"@[1] == 'O');
        assert("DK"@.len() == 2);
        assert("DK"@[0] == 'D');
        assert("DK"@[1] == 'K');
        assert("PL"@.len() == 2);
        assert("PL"@[0] == 'P');
        assert("PL"@[1] == 'L');
        assert("TH"@.len() == 2);
        assert("TH"@[0] == 'T');
        assert("TH"@[1] == 'H');
        assert("MY"@.len() == 2);
        assert("MY"@[0] == 'M');
        assert("MY"@[1] == 'Y');
        assert("ID"@.len() == 2);
        assert("ID"@[0] == 'I');
        assert("ID"@[1] == 'D');
        assert("PH"@.len() == 2);
        assert("PH"@[0] == 'P');
        assert("PH"@[1] == 'H');
        assert("KR"@.len() == 2);
        assert("KR"@[0] == 'K');
        assert("KR"@[1] == 'R');
        assert("TW"@.len() == 2);
        assert("TW"@[0] == 'T');
        assert("TW"@[1] == 'W');
        assert("DE"@.len() == 2);
        assert("DE"@[0] == 'D');
        assert("DE"@[1] == 'E');
        match c {
            Country::Au => {},
            Country::Us => {},
            Country::Nz => {},
            Country::Gb => {},
            Country::Ie => {},
            Country::Ca => {},
            Country::Jp => {},
            Country::Sg => {},
            Country::Hk => {},
            Country::Ch => {},
            Country::Cn => {},
            Country::In => {},
            Country::Za => {},
            Country::Se => {},
            Country::No => {},
            Country::Dk => {},
            Country::Pl => {},
            Country::Th => {},
            Country::My => {},
            Country::Id => {},
            Country::Ph => {},
            Country::Kr => {},
            Country::Tw => {},
            Country::De => {},
        }
    }

    /// The lookup accepts exactly the vocabulary: it gives a value
    /// if and only if some variant carries the code.
    pub proof fn lemma_from_code_exact(s: Seq<char>)
        ensures
            Self::spec_from_code(s) is Some <==> Self::spec_known_code(s),
    {
        assert(Country::Au.spec_code() == "AU"@);
        assert(Country::Us.spec_code() == "US"@);
        assert(Country::Nz.spec_code() == "NZ"@);
        assert(Country::Gb.spec_code() == "GB"@);
        assert(Country::Ie.spec_code() == "IE"@);
        assert(Country::Ca.spec_code() == "CA"@);
        assert(Country::Jp.spec_code() == "JP"@);
        assert(Country::Sg.spec_code() == "SG"@);
        assert(Country::Hk.spec_code() == "HK"@);
        assert(Country::Ch.spec_code() == "CH"@);
        assert(Country::Cn.spec_code() == "CN"@);
        assert(Country::In.spec_code() == "IN"@);
        assert(Country::Za.spec_code() == "ZA"@);
        assert(Country::Se.spec_code() == "SE"@);
        assert(Country::No.spec_code() == "NO"@);
        assert(Country::Dk.spec_code() == "DK"@);
        assert(Country::Pl.spec_code() == "PL"@);
        assert(Country::Th.spec_code() == "TH"@);
        assert(Country::My.spec_code() == "MY"@);
        assert(Country::Id.spec_code() == "ID"@);
        assert(Country::Ph.spec_code() == "PH"@);
        assert(Country::Kr.spec_code() == "KR"@);
        assert(Country::Tw.spec_code() == "TW"@);
        assert(Country::De.spec_code() == "DE"@);
        if Self::spec_known_code(s) {
            let c = choose|c: Country| (#[trigger] c.spec_code()) == s;
            match c {
                Country::Au => {},
                Country::Us => {},
                Country::Nz => {},
                Country::Gb => {},
                Country::Ie => {},
                Country::Ca => {},
                Country::Jp => {},
                Country::Sg => {},
                Country::Hk => {},
                Country::Ch => {},
                Country::Cn => {},
                Country::In => {},
                Country::Za => {},
                Country::Se => {},
                Country::No => {},
                Country::Dk => {},
                Country::Pl => {},
                Country::Th => {},
                Country::My => {},
                Country::Id => {},
                Country::Ph => {},
                Country::Kr => {},
                Country::Tw => {},
                Country::De => {},
            }
        }
    }
}

/// Stock markets the service recognises, by exchange code.
#[derive(Debug, Clone, Copy, PartialEq, Eq, Structural)]
pub enum Market {
    Asx,
    Nzx,
    Nyse,
    Nasdaq,
    Lse,
    Tse,
    Hkg,
    Sgx,
    Tsx,
    Jse,
    Fra,
    Epa,
    Ams,
    Bit,
    Otc,
    Fx,
}

impl Market {
    /// The wire code of this value.
    pub open spec fn spec_code(self) -> Seq<char> {
        match self {
            Market::Asx => "ASX"@,
            Market::Nzx => "NZX"@,
            Market::Nyse => "NYSE"@,
            Market::Nasdaq => "NASDAQ"@,
            Market::Lse => "LSE"@,
            Market::Tse => "TSE"@,
            Market::Hkg => "HKG"@,
            Market::Sgx => "SGX"@,
            Market::Tsx => "TSX"@,
            Market::Jse => "JSE"@,
            Market::Fra => "FRA"@,
            Market::Epa => "EPA"@,
            Market::Ams => "AMS"@,
            Market::Bit => "BIT"@,
            Market::Otc => "OTC"@,
            Market::Fx => "FX"@,
        }
    }

    /// Whether some variant of the vocabulary carries the code `s`.
    pub open spec fn spec_known_code(s: Seq<char>) -> bool {
        exists|c: Market| (#[trigger] c.spec_code()) == s
    }

    /// The variant carrying a wire code, when the vocabulary has it.
    pub open spec fn spec_from_code(s: Seq<char>) -> Option<Market> {
        if s == "ASX"@ {
            Some(Market::Asx)
        } else if s == "NZX"@ {
            Some(Market::Nzx)
        } else if s == "NYSE"@ {
            Some(Market::Nyse)
        } else if s == "NASDAQ"@ {
            Some(Market::Nasdaq)
        } else if s == "LSE"@ {
            Some(Market::Lse)
        } else if s == "TSE"@ {
            Some(Market::Tse)
        } else if s == "HKG"@ {
            Some(Market::Hkg)
        } else if s == "SGX"@ {
            Some(Market::Sgx)
        } else if s == "TSX"@ {
            Some(Market::Tsx)
        } else if s == "JSE"@ {
            Some(Market::Jse)
        } else if s == "FRA"@ {
            Some(Market::Fra)
        } else if s == "EPA"@ {
            Some(Market::Epa)
        } else if s == "AMS"@ {
            Some(Market::Ams)
        } else if s == "BIT"@ {
            Some(Market::Bit)
        } else if s == "OTC"@ {
            Some(Market::Otc)
        } else if s == "FX"@ {
            Some(Market::Fx)
        } else {
            None
        }
    }

    /// The wire code of this value.
    pub fn code(&self) -> (r: &'static str)
        ensures
            r@ == self.spec_code(),
    {
        match self {
            Market::Asx => "ASX",
            Market::Nzx => "NZX",
            Market::Nyse => "NYSE",
            Market::Nasdaq => "NASDAQ",
            Market::Lse => "LSE",
            Market::Tse => "TSE",
            Market::Hkg => "HKG",
            Market::Sgx => "SGX",
            Market::Tsx => "TSX",
            Market::Jse => "JSE",
            Market::Fra => "FRA",
            Market::Epa => "EPA",
            Market::Ams => "AMS",
            Market::Bit => "BIT",
            Market::Otc => "OTC",
            Market::Fx => "FX",
        }
    }

    /// Looks a wire code up.  A string outside the vocabulary gives
    /// `None`; nothing is defaulted.
    pub fn from_code(s: &str) -> (r: Option<Market>)
        ensures
            r == Self::spec_from_code(s@),
    {
        if str_eq(s, "ASX") {
            Some(Market::Asx)
        } else if str_eq(s, "NZX") {
            Some(Market::Nzx)
        } else if str_eq(s, "NYSE") {
            Some(Market::Nyse)
        } else if str_eq(s, "NASDAQ") {
            Some(Market::Nasdaq)
        } else if str_eq(s, "LSE") {
            Some(Market::Lse)
        } else if str_eq(s, "TSE") {
            Some(Market::Tse)
        } else if str_eq(s, "HKG") {
            Some(Market::Hkg)
        } else if str_eq(s, "SGX") {
            Some(Market::Sgx)
        } else if str_eq(s, "TSX") {
            Some(Market::Tsx)
        } else if str_eq(s, "JSE") {
            Some(Market::Jse)
        } else if str_eq(s, "FRA") {
            Some(Market::Fra)
        } else if str_eq(s, "EPA") {
            Some(Market::Epa)
        } else if str_eq(s, "AMS") {
            Some(Market::Ams)
        } else if str_eq(s, "BIT") {
            Some(Market::Bit)
        } else if str_eq(s, "OTC") {
            Some(Market::Otc)
        } else if str_eq(s, "FX") {
            Some(Market::Fx)
        } else {
            None
        }
    }

    /// Every wire code maps back to the variant that carries it.
    pub proof fn lemma_code_round_trip(c: Market)
        ensures
            Self::spec_from_code(c.spec_code()) == Some(c),
    {
        reveal_strlit("ASX");
        reveal_strlit("NZX");
        reveal_strlit("NYSE");
        reveal_strlit("NASDAQ");
        reveal_strlit("LSE");
        reveal_strlit("TSE");
        reveal_strlit("HKG");
        reveal_strlit("SGX");
        reveal_strlit("TSX");
        reveal_strlit("JSE");
        reveal_strlit("FRA");
        reveal_strlit("EPA");
        reveal_strlit("AMS");
        reveal_strlit("BIT");
        reveal_strlit("OTC");
        reveal_strlit("FX");
        assert("ASX"@.len() == 3);
        assert("ASX"@[0] == 'A');
        assert("ASX"@[1] == 'S');
        assert("ASX"@[2] == 'X');
        assert("NZX"@.len() == 3);
        assert("NZX"@[0] == 'N');
        assert("NZX"@[1] == 'Z');
        assert("NZX"@[2] == 'X');
        assert("NYSE"@.len() == 4);
        assert("NYSE"@[0] == 'N');
        assert("NYSE"@[1] == 'Y');
        assert("NYSE"@[2] == 'S');
        assert("NYSE"@[3] == 'E');
        assert("NASDAQ"@.len() == 6);
        assert("NASDAQ"@[0] == 'N');
        assert("NASDAQ"@[1] == 'A');
        assert("NASDAQ"@[2] == 'S');
        assert("NASDAQ"@[3] == 'D');
        assert("NASDAQ"@[4] == 'A');
        assert("NASDAQ"@[5] == 'Q');
        assert("LSE"@.len() == 3);
        assert("LSE"@[0] == 'L');
        assert("LSE"@[1] == 'S');
        assert("LSE"@[2] == 'E');
        assert("TSE"@.len() == 3);
        assert("TSE"@[0] == 'T');
        assert("TSE"@[1] == 'S');
        assert("TSE"@[2] == 'E');
        assert("HKG"@.len() == 3);
        assert("HKG"@[0] == 'H');
        assert("HKG"@[1] == 'K');
        assert("HKG"@[2] == 'G');
        assert("SGX"@.len() == 3);
        assert("SGX"@[0] == 'S');
        assert("SGX"@[1] == 'G');
        assert("SGX"@[2] == 'X');
        assert("TSX"@.len() == 3);
        assert("TSX"@[0] == 'T');
        assert("TSX"@[1] == 'S');
        assert("TSX"@[2] == 'X');
        assert("JSE"@.len() == 3);
        assert("JSE"@[0] == 'J');
        assert("JSE"@[1] == 'S');
        assert("JSE"@[2] == 'E');
        assert("FRA"@.len() == 3);
        assert("FRA"@[0] == 'F');
        assert("FRA"@[1] == 'R');
        assert("FRA"@[2] == 'A');
        assert("EPA"@.len() == 3);
        assert("EPA"@[0] == 'E');
        assert("EPA"@[1] == 'P');
        assert("EPA"@[2] == 'A');
        assert("AMS"@.len() == 3);
        assert("AMS"@[0] == 'A');
        assert("AMS"@[1] == 'M');
        assert("AMS"@[2] == 'S');
        assert("BIT"@.len() == 3);
        assert("BIT"@[0] == 'B');
        assert("BIT"@[1] == 'I');
        assert("BIT"@[2] == 'T');
        assert("OTC"@.len() == 3);
        assert("OTC"@[0] == 'O');
        assert("OTC"@[1] == 'T');
        assert("OTC"@[2] == 'C');
        assert("FX"@.len() == 2);
        assert("FX"@[0] == 'F');
        assert("FX"@[1] == 'X');
        match c {
            Market::Asx => {},
            Market::Nzx => {},
            Market::Nyse => {},
            Market::Nasdaq => {},
            Market::Lse => {},
            Market::Tse => {},
            Market::Hkg => {},
            Market::Sgx => {},
            Market::Tsx => {},
            Market::Jse => {},
            Market::Fra => {},
            Market::Epa => {},
            Market::Ams => {},
            Market::Bit => {},
            Market::Otc => {},
            Market::Fx => {},
        }
    }

    /// The lookup accepts exactly the vocabulary: it gives a value
    /// if and only if some variant carries the code.
    pub proof fn lemma_from_code_exact(s: Seq<char>)
        ensures
            Self::spec_from_code(s) is Some <==> Self::spec_known_code(s),
    {
        assert(Market::Asx.spec_code() == "ASX"@);
        assert(Market::Nzx.spec_code() == "NZX"@);
        assert(Market::Nyse.spec_code() == "NYSE"@);
        assert(Market::Nasdaq.spec_code() == "NASDAQ"@);
        assert(Market::Lse.spec_code() == "LSE"@);
        assert(Market::Tse.spec_code() == "TSE"@);
        assert(Market::Hkg.spec_code() == "HKG"@);
        assert(Market::Sgx.spec_code() == "SGX"@);
        assert(Market::Tsx.spec_code() == "TSX"@);
        assert(Market::Jse.spec_code() == "JSE"@);
        assert(Market::Fra.spec_code() == "FRA"@);
        assert(Market::Epa.spec_code() == "EPA"@);
        assert(Market::Ams.spec_code() == "AMS"@);
        assert(Market::Bit.spec_code() == "BIT"@);
        assert(Market::Otc.spec_code() == "OTC"@);
        assert(Market::Fx.spec_code() == "FX"@);
        if Self::spec_known_code(s) {
            let c = choose|c: Market| (#[trigger] c.spec_code()) == s;
            match c {
                Market::Asx => {},
                Market::Nzx => {},
                Market::Nyse => {},
                Market::Nasdaq => {},
                Market::Lse => {},
                Market::Tse => {},
                Market::Hkg => {},
                Market::Sgx => {},
                Market::Tsx => {},
                Market::Jse => {},
                Market::Fra => {},
                Market::Epa => {},
                Market::Ams => {},
                Market::Bit => {},
                Market::Otc => {},
                Market::Fx => {},
            }
        }
    }
}

/// The kinds of trade transaction, by wire code.
#[derive(Debug, Clone, Copy, PartialEq, Eq, Structural)]
pub enum TradeDescription {
    Buy,
    Sell,
    Split,
    Bonus,
    Consolidation,
    Cancel,
    CapitalReturn,
    OpeningBalance,
    AdjustCostBase,
    CapitalCall,
    MergeCancel,
    MergeBuy,
}

impl TradeDescription {
    /// The wire code of this value.
    pub open spec fn spec_code(self) -> Seq<char> {
        match self {
            TradeDescription::Buy => "BUY"@,
            TradeDescription::Sell => "SELL"@,
            TradeDescription::Split => "SPLIT"@,
            TradeDescription::Bonus => "BONUS"@,
            TradeDescription::Consolidation => "CONSOLD"@,
            TradeDescription::Cancel => "CANCEL"@,
            TradeDescription::CapitalReturn => "CAPITAL_RETURN"@,
            TradeDescription::OpeningBalance => "OPENING_BALANCE"@,
            TradeDescription::AdjustCostBase => "ADJUST_COST_BASE"@,
            TradeDescription::CapitalCall => "CAPITAL_CALL"@,
            TradeDescription::MergeCancel => "MERGE_CANCEL"@,
            TradeDescription::MergeBuy => "MERGE_BUY"@,
        }
    }

    /// Whether some variant of the vocabulary carries the code `s`.
    pub open spec fn spec_known_code(s: Seq<char>) -> bool {
        exists|c: TradeDescription| (#[trigger] c.spec_code()) == s
    }

    /// The variant carrying a wire code, when the vocabulary has it.
    pub open spec fn spec_from_code(s: Seq<char>) -> Option<TradeDescription> {
        if s == "BUY"@ {
            Some(TradeDescription::Buy)
        } else if s == "SELL"@ {
            Some(TradeDescription::Sell)
        } else if s == "SPLIT"@ {
            Some(TradeDescription::Split)
        } else if s == "BONUS"@ {
            Some(TradeDescription::Bonus)
        } else if s == "CONSOLD"@ {
            Some(TradeDescription::Consolidation)
        } else if s == "CANCEL"@ {
            Some(TradeDescription::Cancel)
        } else if s == "CAPITAL_RETURN"@ {
            Some(TradeDescription::CapitalReturn)
        } else if s == "OPENING_BALANCE"@ {
            Some(TradeDescription::OpeningBalance)
        } else if s == "ADJUST_COST_BASE"@ {
            Some(TradeDescription::AdjustCostBase)
        } else if s == "CAPITAL_CALL"@ {
            Some(TradeDescription::CapitalCall)
        } else if s == "MERGE_CANCEL"@ {
            Some(TradeDescription::MergeCancel)
        } else if s == "MERGE_BUY"@ {
            Some(TradeDescription::MergeBuy)
        } else {
            None
        }
    }

    /// The wire code of this value.
    pub fn code(&self) -> (r: &'static str)
        ensures
            r@ == self.spec_code(),
    {
        match self {
            TradeDescription::Buy => "BUY",
            TradeDescription::Sell => "SELL",
            TradeDescription::Split => "SPLIT",
            TradeDescription::Bonus => "BONUS",
            TradeDescription::Consolidation => "CONSOLD",
            TradeDescription::Cancel => "CANCEL",
            TradeDescription::CapitalReturn => "CAPITAL_RETURN",
            TradeDescription::OpeningBalance => "OPENING_BALANCE",
            TradeDescription::AdjustCostBase => "ADJUST_COST_BASE",
            TradeDescription::CapitalCall => "CAPITAL_CALL",
            TradeDescription::MergeCancel => "MERGE_CANCEL",
            TradeDescription::MergeBuy => "MERGE_BUY",
        }
    }

    /// Looks a wire code up.  A string outside the vocabulary gives
    /// `None`; nothing is defaulted.
    pub fn from_code(s: &str) -> (r: Option<TradeDescription>)
        ensures
            r == Self::spec_from_code(s@),
    {
        if str_eq(s, "BUY") {
            Some(TradeDescription::Buy)
        } else if str_eq(s, "SELL") {
            Some(TradeDescription::Sell)
        } else if str_eq(s, "SPLIT") {
            Some(TradeDescription::Split)
        } else if str_eq(s, "BONUS") {
            Some(TradeDescription::Bonus)
        } else if str_eq(s, "CONSOLD") {
            Some(TradeDescription::Consolidation)
        } else if str_eq(s, "CANCEL") {
            Some(TradeDescription::Cancel)
        } else if str_eq(s, "CAPITAL_RETURN") {
            Some(TradeDescription::CapitalReturn)
        } else if str_eq(s, "OPENING_BALANCE") {
            Some(TradeDescription::OpeningBalance)
        } else if str_eq(s, "ADJUST_COST_BASE") {
            Some(TradeDescription::AdjustCostBase)
        } else if str_eq(s, "CAPITAL_CALL") {
            Some(TradeDescription::CapitalCall)
        } else if str_eq(s, "MERGE_CANCEL") {
            Some(TradeDescription::MergeCancel)
        } else if str_eq(s, "MERGE_BUY") {
            Some(TradeDescription::MergeBuy)
        } else {
            None
        }
    }

    /// Every wire code maps back to the variant that carries it.
    pub proof fn lemma_code_round_trip(c: TradeDescription)
        ensures
            Self::spec_from_code(c.spec_code()) == Some(c),
    {
        reveal_strlit("BUY");
        reveal_strlit("SELL");
        reveal_strlit("SPLIT");
        reveal_strlit("BONUS");
        reveal_strlit("CONSOLD");
        reveal_strlit("CANCEL");
        reveal_strlit("CAPITAL_RETURN");
        reveal_strlit("OPENING_BALANCE");
        reveal_strlit("ADJUST_COST_BASE");
        reveal_strlit("CAPITAL_CALL");
        reveal_strlit("MERGE_CANCEL");
        reveal_strlit("MERGE_BUY");
        assert("BUY"@.len() == 3);
        assert("BUY"@[0] == 'B');
        assert("BUY"@[1] == 'U');
        assert("BUY"@[2] == 'Y');
        assert("SELL"@.len() == 4);
        assert("SELL"@[0] == 'S');
        assert("SELL"@[1] == 'E');
        assert("SELL"@[2] == 'L');
        assert("SELL"@[3] == 'L');
        assert("SPLIT"@.len() == 5);
        assert("SPLIT"@[0] == 'S');
        assert("SPLIT"@[1] == 'P');
        assert("SPLIT"@[2] == 'L');
        assert("SPLIT"@[3] == 'I');
        assert("SPLIT"@[4] == 'T');
        assert("BONUS"@.len() == 5);
        assert("BONUS"@[0] == 'B');
        assert("BONUS"@[1] == 'O');
        assert("BONUS"@[2] == 'N');
        assert("BONUS"@[3] == 'U');
        assert("BONUS"@[4] == 'S');
        assert("CONSOLD"@.len() == 7);
        assert("CONSOLD"@[0] == 'C');
        assert("CONSOLD"@[1] == 'O');
        assert("CONSOLD"@[2] == 'N');
        assert("CONSOLD"@[3] == 'S');
        assert("CONSOLD"@[4] == 'O');
        assert("CONSOLD"@[5] == 'L');
        assert("CONSOLD"@[6] == 'D');
        assert("CANCEL"@.len() == 6);
        assert("CANCEL"@[0] == 'C');
        assert("CANCEL"@[1] == 'A');
        assert("CANCEL"@[2] == 'N');
        assert("CANCEL"@[3] == 'C');
        assert("CANCEL"@[4] == 'E');
        assert("CANCEL"@[5] == 'L');
        assert("CAPITAL_RETURN"@.len() == 14);
        assert("CAPITAL_RETURN"@[0] == 'C');
        assert("CAPITAL_RETURN"@[1] == 'A');
        assert("CAPITAL_RETURN"@[2] == 'P');
        assert("CAPITAL_RETURN"@[3] == 'I');
        assert("CAPITAL_RETURN"@[4] == 'T');
        assert("CAPITAL_RETURN"@[5] == 'A');
        assert("CAPITAL_RETURN"@[6] == 'L');
        assert("CAPITAL_RETURN"@[7] == '_');
        assert("CAPITAL_RETURN"@[8] == 'R');
        assert("CAPITAL_RETURN"@[9] == 'E');
        assert("CAPITAL_RETURN"@[10] == 'T');
        assert("CAPITAL_RETURN"@[11] == 'U');
        assert("CAPITAL_RETURN"@[12] == 'R');
        assert("CAPITAL_RETURN"@[13] == 'N');
        assert("OPENING_BALANCE"@.len() == 15);
        assert("OPENING_BALANCE"@[0] == 'O');
        assert("OPENING_BALANCE"@[1] == 'P');
        assert("OPENING_BALANCE"@[2] == 'E');
        assert("OPENING_BALANCE"@[3] == 'N');
        assert("OPENING_BALANCE"@[4] == 'I');
        assert("OPENING_BALANCE"@[5] == 'N');
        assert("OPENING_BALANCE"@[6] == 'G');
        assert("OPENING_BALANCE"@[7] == '_');
        assert("OPENING_BALANCE"@[8] == 'B');
        assert("OPENING_BALANCE"@[9] == 'A');
        assert("OPENING_BALANCE"@[10] == 'L');
        assert("OPENING_BALANCE"@[11] == 'A');
        assert("OPENING_BALANCE"@[12] == 'N');
        assert("OPENING_BALANCE"@[13] == 'C');
        assert("OPENING_BALANCE"@[14] == 'E');
        assert("ADJUST_COST_BASE"@.len() == 16);
        assert("ADJUST_COST_BASE"@[0] == 'A');
        assert("ADJUST_COST_BASE"@[1] == 'D');
        assert("ADJUST_COST_BASE"@[2] == 'J');
        assert("ADJUST_COST_BASE"@[3] == 'U');
        assert("ADJUST_COST_BASE"@[4] == 'S');
        assert("ADJUST_COST_BASE"@[5] == 'T');
        assert("ADJUST_COST_BASE"@[6] == '_');
        assert("ADJUST_COST_BASE"@[7] == 'C');
        assert("ADJUST_COST_BASE"@[8] == 'O');
        assert("ADJUST_COST_BASE"@[9] == 'S');
        assert("ADJUST_COST_BASE"@[10] == 'T');
        assert("ADJUST_COST_BASE"@[11] == '_');
        assert("ADJUST_COST_BASE"@[12] == 'B');
        assert("ADJUST_COST_BASE"@[13] == 'A');
        assert("ADJUST_COST_BASE"@[14] == 'S');
        assert("ADJUST_COST_BASE"@[15] == 'E');
        assert("CAPITAL_CALL"@.len() == 12);
        assert("CAPITAL_CALL"@[0] == 'C');
        assert("CAPITAL_CALL"@[1] == 'A');
        assert("CAPITAL_CALL"@[2] == 'P');
        assert("CAPITAL_CALL"@[3] == 'I');
        assert("CAPITAL_CALL"@[4] == 'T');
        assert("CAPITAL_CALL"@[5] == 'A');
        assert("CAPITAL_CALL"@[6] == 'L');
        assert("CAPITAL_CALL"@[7] == '_');
        assert("CAPITAL_CALL"@[8] == 'C');
        assert("CAPITAL_CALL"@[9] == 'A');
        assert("CAPITAL_CALL"@[10] == 'L');
        assert("CAPITAL_CALL"@[11] == 'L');
        assert("MERGE_CANCEL"@.len() == 12);
        assert("MERGE_CANCEL"@[0] == 'M');
        assert("MERGE_CANCEL"@[1] == 'E');
        assert("MERGE_CANCEL"@[2] == 'R');
        assert("MERGE_CANCEL"@[3] == 'G');
        assert("MERGE_CANCEL"@[4] == 'E');
        assert("MERGE_CANCEL"@[5] == '_');
        assert("MERGE_CANCEL"@[6] == 'C');
        assert("MERGE_CANCEL"@[7] == 'A');
        assert("MERGE_CANCEL"@[8] == 'N');
        assert("MERGE_CANCEL"@[9] == 'C');
        assert("MERGE_CANCEL"@[10] == 'E');
        assert("MERGE_CANCEL"@[11] == 'L');
        assert("MERGE_BUY"@.len() == 9);
        assert("MERGE_BUY"@[0] == 'M');
        assert("MERGE_BUY"@[1] == 'E');
        assert("MERGE_BUY"@[2] == 'R');
        assert("MERGE_BUY"@[3] == 'G');
        assert("MERGE_BUY"@[4] == 'E');
        assert("MERGE_BUY"@[5] == '_');
        assert("MERGE_BUY"@[6] == 'B');
        assert("MERGE_BUY"@[7] == 'U');
        assert("MERGE_BUY"@[8] == 'Y');
        match c {
            TradeDescription::Buy => {},
            TradeDescription::Sell => {},
            TradeDescription::Split => {},
            TradeDescription::Bonus => {},
            TradeDescription::Consolidation => {},
            TradeDescription::Cancel => {},
            TradeDescription::CapitalReturn => {},
            TradeDescription::OpeningBalance => {},
            TradeDescription::AdjustCostBase => {},
            TradeDescription::CapitalCall => {},
            TradeDescription::MergeCancel => {},
            TradeDescription::MergeBuy => {},
        }
    }

    /// The lookup accepts exactly the vocabulary: it gives a value
    /// if and only if some variant carries the code.
    pub proof fn lemma_from_code_exact(s: Seq<char>)
        ensures
            Self::spec_from_code(s) is Some <==> Self::spec_known_code(s),
    {
        assert(TradeDescription::Buy.spec_code() == "BUY"@);
        assert(TradeDescription::Sell.spec_code() == "SELL"@);
        assert(TradeDescription::Split.spec_code() == "SPLIT"@);
        assert(TradeDescription::Bonus.spec_code() == "BONUS"@);
        assert(TradeDescription::Consolidation.spec_code() == "CONSOLD"@);
        assert(TradeDescription::Cancel.spec_code() == "CANCEL"@);
        assert(TradeDescription::CapitalReturn.spec_code() == "CAPITAL_RETURN"@);
        assert(TradeDescription::OpeningBalance.spec_code() == "OPENING_BALANCE"@);
        assert(TradeDescription::AdjustCostBase.spec_code() == "ADJUST_COST_BASE"@);
        assert(TradeDescription::CapitalCall.spec_code() == "CAPITAL_CALL"@);
        assert(TradeDescription::MergeCancel.spec_code() == "MERGE_CANCEL"@);
        assert(TradeDescription::MergeBuy.spec_code() == "MERGE_BUY"@);
        if Self::spec_known_code(s) {
            let c = choose|c: TradeDescription| (#[trigger] c.spec_code()) == s;
            match c {
                TradeDescription::Buy => {},
                TradeDescription::Sell => {},
                TradeDescription::Split => {},
                TradeDescription::Bonus => {},
                TradeDescription::Consolidation => {},
                TradeDescription::Cancel => {},
                TradeDescription::CapitalReturn => {},
                TradeDescription::OpeningBalance => {},
                TradeDescription::AdjustCostBase => {},
                TradeDescription::CapitalCall => {},
                TradeDescription::MergeCancel => {},
                TradeDescription::MergeBuy => {},
            }
        }
    }
}

/// The kinds of payout transaction, by wire code.
#[derive(Debug, Clone, Copy, PartialEq, Eq, Structural)]
pub enum PayoutDescription {
    Dividend,
    Interest,
    Distribution,
    Repayment,
}

impl PayoutDescription {
    /// The wire code of this value.
    pub open spec fn spec_code(self) -> Seq<char> {
        match self {
            PayoutDescription::Dividend => "DIV"@,
            PayoutDescription::Interest => "INT"@,
            PayoutDescription::Distribution => "DIS"@,
            PayoutDescription::Repayment => "REP"@,
        }
    }

    /// Whether some variant of the vocabulary carries the code `s`.
    pub open spec fn spec_known_code(s: Seq<char>) -> bool {
        exists|c: PayoutDescription| (#[trigger] c.spec_code()) == s
    }

    /// The variant carrying a wire code, when the vocabulary has it.
    pub open spec fn spec_from_code(s: Seq<char>) -> Option<PayoutDescription> {
        if s == "DIV"@ {
            Some(PayoutDescription::Dividend)
        } else if s == "INT"@ {
            Some(PayoutDescription::Interest)
        } else if s == "DIS"@ {
            Some(PayoutDescription::Distribution)
        } else if s == "REP"@ {
            Some(PayoutDescription::Repayment)
        } else {
            None
        }
    }

    /// The wire code of this value.
    pub fn code(&self) -> (r: &'static str)
        ensures
            r@ == self.spec_code(),
    {
        match self {
            PayoutDescription::Dividend => "DIV",
            PayoutDescription::Interest => "INT",
            PayoutDescription::Distribution => "DIS",
            PayoutDescription::Repayment => "REP",
        }
    }

    /// Looks a wire code up.  A string outside the vocabulary gives
    /// `None`; nothing is defaulted.
    pub fn from_code(s: &str) -> (r: Option<PayoutDescription>)
        ensures
            r == Self::spec_from_code(s@),
    {
        if str_eq(s, "DIV") {
            Some(PayoutDescription::Dividend)
        } else if str_eq(s, "INT") {
            Some(PayoutDescription::Interest)
        } else if str_eq(s, "DIS") {
            Some(PayoutDescription::Distribution)
        } else if str_eq(s, "REP") {
            Some(PayoutDescription::Repayment)
        } else {
            None
        }
    }

    /// Every wire code maps back to the variant that carries it.
    pub proof fn lemma_code_round_trip(c: PayoutDescription)
        ensures
            Self::spec_from_code(c.spec_code()) == Some(c),
    {
        reveal_strlit("DIV");
        reveal_strlit("INT");
        reveal_strlit("DIS");
        reveal_strlit("REP");
        assert("DIV"@.len() == 3);
        assert("DIV"@[0] == 'D');
        assert("DIV"@[1] == 'I');
        assert("DIV"@[2] == 'V');
        assert("INT"@.len() == 3);
        assert("INT"@[0] == 'I');
        assert("INT"@[1] == 'N');
        assert("INT"@[2] == 'T');
        assert("DIS"@.len() == 3);
        assert("DIS"@[0] == 'D');
        assert("DIS"@[1] == 'I');
        assert("DIS"@[2] == 'S');
        assert("REP"@.len() == 3);
        assert("REP"@[0] == 'R');
        assert("REP"@[1] == 'E');
        assert("REP"@[2] == 'P');
        match c {
            PayoutDescription::Dividend => {},
            PayoutDescription::Interest => {},
            PayoutDescription::Distribution => {},
            PayoutDescription::Repayment => {},
        }
    }

    /// The lookup accepts exactly the vocabulary: it gives a value
    /// if and only if some variant carries the code.
    pub proof fn lemma_from_code_exact(s: Seq<char>)
        ensures
            Self::spec_from_code(s) is Some <==> Self::spec_known_code(s),
    {
        assert(PayoutDescription::Dividend.spec_code() == "DIV"@);
        assert(PayoutDescription::Interest.spec_code() == "INT"@);
        assert(PayoutDescription::Distribution.spec_code() == "DIS"@);
        assert(PayoutDescription::Repayment.spec_code() == "REP"@);
        if Self::spec_known_code(s) {
            let c = choose|c: PayoutDescription| (#[trigger] c.spec_code()) == s;
            match c {
                PayoutDescription::Dividend => {},
                PayoutDescription::Interest => {},
                PayoutDescription::Distribution => {},
                PayoutDescription::Repayment => {},
            }
        }
    }
}

/// The methods of allocating a sale across parcels, by wire code.
#[derive(Debug, Clone, Copy, PartialEq, Eq, Structural)]
pub enum SaleAllocationMethod {
    Fifo,
    Lifo,
    Maximise,
    Minimise,
    SsMinimise,
    AverageCost,
}

impl SaleAllocationMethod {
    /// The wire code of this value.
    pub open spec fn spec_code(self) -> Seq<char> {
        match self {
            SaleAllocationMethod::Fifo => "fifo"@,
            SaleAllocationMethod::Lifo => "lifo"@,
            SaleAllocationMethod::Maximise => "maximise"@,
            SaleAllocationMethod::Minimise => "minimise"@,
            SaleAllocationMethod::SsMinimise => "ss_minimise"@,
            SaleAllocationMethod::AverageCost => "average"@,
        }
    }

    /// Whether some variant of the vocabulary carries the code `s`.
    pub open spec fn spec_known_code(s: Seq<char>) -> bool {
        exists|c: SaleAllocationMethod| (#[trigger] c.spec_code()) == s
    }

    /// The variant carrying a wire code, when the vocabulary has it.
    pub open spec fn spec_from_code(s: Seq<char>) -> Option<SaleAllocationMethod> {
        if s == "fifo"@ {
            Some(SaleAllocationMethod::Fifo)
        } else if s == "lifo"@ {
            Some(SaleAllocationMethod::Lifo)
        } else if s == "maximise"@ {
            Some(SaleAllocationMethod::Maximise)
        } else if s == "minimise"@ {
            Some(SaleAllocationMethod::Minimise)
        } else if s == "ss_minimise"@ {
            Some(SaleAllocationMethod::SsMinimise)
        } else if s == "average"@ {
            Some(SaleAllocationMethod::AverageCost)
        } else {
            None
        }
    }

    /// The wire code of this value.
    pub fn code(&self) -> (r: &'static str)
        ensures
            r@ == self.spec_code(),
    {
        match self {
            SaleAllocationMethod::Fifo => "fifo",
            SaleAllocationMethod::Lifo => "lifo",
            SaleAllocationMethod::Maximise => "maximise",
            SaleAllocationMethod::Minimise => "minimise",
            SaleAllocationMethod::SsMinimise => "ss_minimise",
            SaleAllocationMethod::AverageCost => "average",
        }
    }

    /// Looks a wire code up.  A string outside the vocabulary gives
    /// `None`; nothing is defaulted.
    pub fn from_code(s: &str) -> (r: Option<SaleAllocationMethod>)
        ensures
            r == Self::spec_from_code(s@),
    {
        if str_eq(s, "fifo") {
            Some(SaleAllocationMethod::Fifo)
        } else if str_eq(s, "lifo") {
            Some(SaleAllocationMethod::Lifo)
        } else if str_eq(s, "maximise") {
            Some(SaleAllocationMethod::Maximise)
        } else if str_eq(s, "minimise") {
            Some(SaleAllocationMethod::Minimise)
        } else if str_eq(s, "ss_minimise") {
            Some(SaleAllocationMethod::SsMinimise)
        } else if str_eq(s, "average") {
            Some(SaleAllocationMethod::AverageCost)
        } else {
            None
        }
    }

    /// Every wire code maps back to the variant that carries it.
    pub proof fn lemma_code_round_trip(c: SaleAllocationMethod)
        ensures
            Self::spec_from_code(c.spec_code()) == Some(c),
    {
        reveal_strlit("fifo");
        reveal_strlit("lifo");
        reveal_strlit("maximise");
        reveal_strlit("minimise");
        reveal_strlit("ss_minimise");
        reveal_strlit("average");
        assert("fifo"@.len() == 4);
        assert("fifo"@[0] == 'f');
        assert("fifo"@[1] == 'i');
        assert("fifo"@[2] == 'f');
        assert("fifo"@[3] == 'o');
        assert("lifo"@.len() == 4);
        assert("lifo"@[0] == 'l');
        assert("lifo"@[1] == 'i');
        assert("lifo"@[2] == 'f');
        assert("lifo"@[3] == 'o');
        assert("maximise"@.len() == 8);
        assert("maximise"@[0] == 'm');
        assert("maximise"@[1] == 'a');
        assert("maximise"@[2] == 'x');
        assert("maximise"@[3] == 'i');
        assert("maximise"@[4] == 'm');
        assert("maximise"@[5] == 'i');
        assert("maximise"@[6] == 's');
        assert("maximise"@[7] == 'e');
        assert("minimise"@.len() == 8);
        assert("minimise"@[0] == 'm');
        assert("minimise"@[1] == 'i');
        assert("minimise"@[2] == 'n');
        assert("minimise"@[3] == 'i');
        assert("minimise"@[4] == 'm');
        assert("minimise"@[5] == 'i');
        assert("minimise"@[6] == 's');
        assert("minimise"@[7] == 'e');
        assert("ss_minimise"@.len() == 11);
        assert("ss_minimise"@[0] == 's');
        assert("ss_minimise"@[1] == 's');
        assert("ss_minimise"@[2] == '_');
        assert("ss_minimise"@[3] == 'm');
        assert("ss_minimise"@[4] == 'i');
        assert("ss_minimise"@[5] == 'n');
        assert("ss_minimise"@[6] == 'i');
        assert("ss_minimise"@[7] == 'm');
        assert("ss_minimise"@[8] == 'i');
        assert("ss_minimise"@[9] == 's');
        assert("ss_minimise"@[10] == 'e');
        assert("average"@.len() == 7);
        assert("average"@[0] == 'a');
        assert("average"@[1] == 'v');
        assert("average"@[2] == 'e');
        assert("average"@[3] == 'r');
        assert("average"@[4] == 'a');
        assert("average"@[5] == 'g');
        assert("average"@[6] == 'e');
        match c {
            SaleAllocationMethod::Fifo => {},
            SaleAllocationMethod::Lifo => {},
            SaleAllocationMethod::Maximise => {},
            SaleAllocationMethod::Minimise => {},
            SaleAllocationMethod::SsMinimise => {},
            SaleAllocationMethod::AverageCost => {},
        }
    }

    /// The lookup accepts exactly the vocabulary: it gives a value
    /// if and only if some variant carries the code.
    pub proof fn lemma_from_code_exact(s: Seq<char>)
        ensures
            Self::spec_from_code(s) is Some <==> Self::spec_known_code(s),
    {
        assert(SaleAllocationMethod::Fifo.spec_code() == "fifo"@);
        assert(SaleAllocationMethod::Lifo.spec_code() == "lifo"@);
        assert(SaleAllocationMethod::Maximise.spec_code() == "maximise"@);
        assert(SaleAllocationMethod::Minimise.spec_code() == "minimise"@);
        assert(SaleAllocationMethod::SsMinimise.spec_code() == "ss_minimise"@);
        assert(SaleAllocationMethod::AverageCost.spec_code() == "average"@);
        if Self::spec_known_code(s) {
            let c = choose|c: SaleAllocationMethod| (#[trigger] c.spec_code()) == s;
            match c {
                SaleAllocationMethod::Fifo => {},
                SaleAllocationMethod::Lifo => {},
                SaleAllocationMethod::Maximise => {},
                SaleAllocationMethod::Minimise => {},
                SaleAllocationMethod::SsMinimise => {},
                SaleAllocationMethod::AverageCost => {},
            }
        }
    }
}

} // verus!

use vstd::prelude::*;
use crate::text::same_text;

verus! {

/// A semantic type whose values need no arguments and come as text.
#[derive(Debug, Clone, Copy, PartialEq, Eq)]
pub enum TextKind {
    Word,
    FirstName,
    LastName,
    NameTitle,
    Suffix,
    Name,
    NameWithTitle,
    Seniority,
    Field,
    Position,
    JobTitle,
    Digit,
    FreeEmailProvider,
    DomainSuffix,
    FreeEmail,
    SafeEmail,
    Username,
    IPv4,
    IPv6,
    IP,
    MACAddress,
    UserAgent,
    RfcStatusCode,
    ValidStatusCode,
    HexColor,
    RgbColor,
    RgbaColor,
    HslColor,
    HslaColor,
    Color,
    CompanySuffix,
    CompanyName,
    Buzzword,
    BuzzwordMiddle,
    BuzzwordTail,
    CatchPhrase,
    BsVerb,
    BsAdj,
    BsNoun,
    Bs,
    Profession,
    Industry,
    CityPrefix,
    CitySuffix,
    CityName,
    CountryName,
    CountryCode,
    StreetSuffix,
    StreetName,
    TimeZone,
    StateName,
    StateAbbr,
    SecondaryAddressType,
    SecondaryAddress,
    ZipCode,
    PostCode,
    BuildingNumber,
    Latitude,
    Longitude,
    LicencePlate,
    Isbn,
    Isbn13,
    Isbn10,
    PhoneNumber,
    CellNumber,
    Time,
    Date,
    DateTime,
    FilePath,
    FileName,
    FileExtension,
    DirPath,
    Bic,
    CurrencyCode,
    CurrencyName,
    CurrencySymbol,
    CreditCardNumber,
    Duration,
    UuidV1,
    UuidV3,
    UuidV4,
    UuidV5,
    BigDecimal,
    PositiveBigDecimal,
    NegativeBigDecimal,
    NoBigDecimalPoints,
}

/// A semantic type of the catalogue.
///
/// The `Decimal`, `PositiveDecimal`, `NegativeDecimal` and `NoDecimalPoints`
/// types are left out: fake draws a `rust_decimal` scale from the whole `u32`
/// range, and `rust_decimal` asserts that a scale is at most 28, so drawing
/// one panics almost always.
#[derive(Debug, Clone, Copy, PartialEq, Eq)]
pub enum TypeKind {
    U32,
    U64,
    I32,
    I64,
    F32,
    F64,
    Boolean,
    Sentence,
    Paragraph,
    Password,
    NumberWithFormat,
    Geohash,
    DateTimeBefore,
    DateTimeAfter,
    DateTimeBetween,
    Text(TextKind),
}

/// The kind listed under a type name, if any.
pub open spec fn kind_of(name: Seq<char>) -> Option<TypeKind> {
    if name == "u32"@ {
        Some(TypeKind::U32)
    } else if name == "u64"@ {
        Some(TypeKind::U64)
    } else if name == "i32"@ {
        Some(TypeKind::I32)
    } else if name == "i64"@ {
        Some(TypeKind::I64)
    } else if name == "f32"@ {
        Some(TypeKind::F32)
    } else if name == "f64"@ {
        Some(TypeKind::F64)
    } else if name == "Boolean"@ {
        Some(TypeKind::Boolean)
    } else if name == "Sentence"@ {
        Some(TypeKind::Sentence)
    } else if name == "Paragraph"@ {
        Some(TypeKind::Paragraph)
    } else if name == "Password"@ {
        Some(TypeKind::Password)
    } else if name == "NumberWithFormat"@ {
        Some(TypeKind::NumberWithFormat)
    } else if name == "Geohash"@ {
        Some(TypeKind::Geohash)
    } else if name == "DateTimeBefore"@ {
        Some(TypeKind::DateTimeBefore)
    } else if name == "DateTimeAfter"@ {
        Some(TypeKind::DateTimeAfter)
    } else if name == "DateTimeBetween"@ {
        Some(TypeKind::DateTimeBetween)
    } else if name == "Word"@ {
        Some(TypeKind::Text(TextKind::Word))
    } else if name == "FirstName"@ {
        Some(TypeKind::Text(TextKind::FirstName))
    } else if name == "LastName"@ {
        Some(TypeKind::Text(TextKind::LastName))
    } else if name == "Title"@ {
        Some(TypeKind::Text(TextKind::NameTitle))
    } else if name == "Suffix"@ {
        Some(TypeKind::Text(TextKind::Suffix))
    } else if name == "Name"@ {
        Some(TypeKind::Text(TextKind::Name))
    } else if name == "NameWithTitle"@ {
        Some(TypeKind::Text(TextKind::NameWithTitle))
    } else if name == "Seniority"@ {
        Some(TypeKind::Text(TextKind::Seniority))
    } else if name == "Field"@ {
        Some(TypeKind::Text(TextKind::Field))
    } else if name == "Position"@ {
        Some(TypeKind::Text(TextKind::Position))
    } else if name == "JobTitle"@ {
        Some(TypeKind::Text(TextKind::JobTitle))
    } else if name == "Digit"@ {
        Some(TypeKind::Text(TextKind::Digit))
    } else if name == "FreeEmailProvider"@ {
        Some(TypeKind::Text(TextKind::FreeEmailProvider))
    } else if name == "DomainSuffix"@ {
        Some(TypeKind::Text(TextKind::DomainSuffix))
    } else if name == "FreeEmail"@ {
        Some(TypeKind::Text(TextKind::FreeEmail))
    } else if name == "SafeEmail"@ {
        Some(TypeKind::Text(TextKind::SafeEmail))
    } else if name == "Username"@ {
        Some(TypeKind::Text(TextKind::Username))
    } else if name == "IPv4"@ {
        Some(TypeKind::Text(TextKind::IPv4))
    } else if name == "IPv6"@ {
        Some(TypeKind::Text(TextKind::IPv6))
    } else if name == "IP"@ {
        Some(TypeKind::Text(TextKind::IP))
    } else if name == "MACAddress"@ {
        Some(TypeKind::Text(TextKind::MACAddress))
    } else if name == "UserAgent"@ {
        Some(TypeKind::Text(TextKind::UserAgent))
    } else if name == "RfcStatusCode"@ {
        Some(TypeKind::Text(TextKind::RfcStatusCode))
    } else if name == "ValidStatusCode"@ {
        Some(TypeKind::Text(TextKind::ValidStatusCode))
    } else if name == "HexColor"@ {
        Some(TypeKind::Text(TextKind::HexColor))
    } else if name == "RgbColor"@ {
        Some(TypeKind::Text(TextKind::RgbColor))
    } else if name == "RgbaColor"@ {
        Some(TypeKind::Text(TextKind::RgbaColor))
    } else if name == "HslColor"@ {
        Some(TypeKind::Text(TextKind::HslColor))
    } else if name == "HslaColor"@ {
        Some(TypeKind::Text(TextKind::HslaColor))
    } else if name == "Color"@ {
        Some(TypeKind::Text(TextKind::Color))
    } else if name == "CompanySuffix"@ {
        Some(TypeKind::Text(TextKind::CompanySuffix))
    } else if name == "CompanyName"@ {
        Some(TypeKind::Text(TextKind::CompanyName))
    } else if name == "Buzzword"@ {
        Some(TypeKind::Text(TextKind::Buzzword))
    } else if name == "BuzzwordMiddle"@ {
        Some(TypeKind::Text(TextKind::BuzzwordMiddle))
    } else if name == "BuzzwordTail"@ {
        Some(TypeKind::Text(TextKind::BuzzwordTail))
    } else if name == "CatchPhrase"@ {
        Some(TypeKind::Text(TextKind::CatchPhrase))
    } else if name == "BsVerb"@ {
        Some(TypeKind::Text(TextKind::BsVerb))
    } else if name == "BsAdj"@ {
        Some(TypeKind::Text(TextKind::BsAdj))
    } else if name == "BsNoun"@ {
        Some(TypeKind::Text(TextKind::BsNoun))
    } else if name == "Bs"@ {
        Some(TypeKind::Text(TextKind::Bs))
    } else if name == "Profession"@ {
        Some(TypeKind::Text(TextKind::Profession))
    } else if name == "Industry"@ {
        Some(TypeKind::Text(TextKind::Industry))
    } else if name == "CityPrefix"@ {
        Some(TypeKind::Text(TextKind::CityPrefix))
    } else if name == "CitySuffix"@ {
        Some(TypeKind::Text(TextKind::CitySuffix))
    } else if name == "CityName"@ {
        Some(TypeKind::Text(TextKind::CityName))
    } else if name == "CountryName"@ {
        Some(TypeKind::Text(TextKind::CountryName))
    } else if name == "CountryCode"@ {
        Some(TypeKind::Text(TextKind::CountryCode))
    } else if name == "StreetSuffix"@ {
        Some(TypeKind::Text(TextKind::StreetSuffix))
    } else if name == "StreetName"@ {
        Some(TypeKind::Text(TextKind::StreetName))
    } else if name == "TimeZone"@ {
        Some(TypeKind::Text(TextKind::TimeZone))
    } else if name == "StateName"@ {
        Some(TypeKind::Text(TextKind::StateName))
    } else if name == "StateAbbr"@ {
        Some(TypeKind::Text(TextKind::StateAbbr))
    } else if name == "SecondaryAddressType"@ {
        Some(TypeKind::Text(TextKind::SecondaryAddressType))
    } else if name == "SecondaryAddress"@ {
        Some(TypeKind::Text(TextKind::SecondaryAddress))
    } else if name == "ZipCode"@ {
        Some(TypeKind::Text(TextKind::ZipCode))
    } else if name == "PostCode"@ {
        Some(TypeKind::Text(TextKind::PostCode))
    } else if name == "BuildingNumber"@ {
        Some(TypeKind::Text(TextKind::BuildingNumber))
    } else if name == "Latitude"@ {
        Some(TypeKind::Text(TextKind::Latitude))
    } else if name == "Longitude"@ {
        Some(TypeKind::Text(TextKind::Longitude))
    } else if name == "LicencePlate"@ {
        Some(TypeKind::Text(TextKind::LicencePlate))
    } else if name == "Isbn"@ {
        Some(TypeKind::Text(TextKind::Isbn))
    } else if name == "Isbn13"@ {
        Some(TypeKind::Text(TextKind::Isbn13))
    } else if name == "Isbn10"@ {
        Some(TypeKind::Text(TextKind::Isbn10))
    } else if name == "PhoneNumber"@ {
        Some(TypeKind::Text(TextKind::PhoneNumber))
    } else if name == "CellNumber"@ {
        Some(TypeKind::Text(TextKind::CellNumber))
    } else if name == "Time"@ {
        Some(TypeKind::Text(TextKind::Time))
    } else if name == "Date"@ {
        Some(TypeKind::Text(TextKind::Date))
    } else if name == "DateTime"@ {
        Some(TypeKind::Text(TextKind::DateTime))
    } else if name == "FilePath"@ {
        Some(TypeKind::Text(TextKind::FilePath))
    } else if name == "FileName"@ {
        Some(TypeKind::Text(TextKind::FileName))
    } else if name == "FileExtension"@ {
        Some(TypeKind::Text(TextKind::FileExtension))
    } else if name == "DirPath"@ {
        Some(TypeKind::Text(TextKind::DirPath))
    } else if name == "Bic"@ {
        Some(TypeKind::Text(TextKind::Bic))
    } else if name == "CurrencyCode"@ {
        Some(TypeKind::Text(TextKind::CurrencyCode))
    } else if name == "CurrencyName"@ {
        Some(TypeKind::Text(TextKind::CurrencyName))
    } else if name == "CurrencySymbol"@ {
        Some(TypeKind::Text(TextKind::CurrencySymbol))
    } else if name == "CreditCardNumber"@ {
        Some(TypeKind::Text(TextKind::CreditCardNumber))
    } else if name == "Duration"@ {
        Some(TypeKind::Text(TextKind::Duration))
    } else if name == "UUIDv1"@ {
        Some(TypeKind::Text(TextKind::UuidV1))
    } else if name == "UUIDv3"@ {
        Some(TypeKind::Text(TextKind::UuidV3))
    } else if name == "UUIDv4"@ {
        Some(TypeKind::Text(TextKind::UuidV4))
    } else if name == "UUIDv5"@ {
        Some(TypeKind::Text(TextKind::UuidV5))
    } else if name == "BigDecimal"@ {
        Some(TypeKind::Text(TextKind::BigDecimal))
    } else if name == "PositiveBigDecimal"@ {
        Some(TypeKind::Text(TextKind::PositiveBigDecimal))
    } else if name == "NegativeBigDecimal"@ {
        Some(TypeKind::Text(TextKind::NegativeBigDecimal))
    } else if name == "NoBigDecimalPoints"@ {
        Some(TypeKind::Text(TextKind::NoBigDecimalPoints))
    } else {
        None
    }
}

/// Whether a type name is listed in the catalogue.
pub open spec fn is_listed(name: Seq<char>) -> bool {
    kind_of(name) is Some
}

/// Looks a type name up in the catalogue.
pub fn type_kind(name: &str) -> (r: Option<TypeKind>)
    ensures
        r == kind_of(name@),
{
    if same_text(name, "u32") {
        return Some(TypeKind::U32);
    }
    if same_text(name, "u64") {
        return Some(TypeKind::U64);
    }
    if same_text(name, "i32") {
        return Some(TypeKind::I32);
    }
    if same_text(name, "i64") {
        return Some(TypeKind::I64);
    }
    if same_text(name, "f32") {
        return Some(TypeKind::F32);
    }
    if same_text(name, "f64") {
        return Some(TypeKind::F64);
    }
    if same_text(name, "Boolean") {
        return Some(TypeKind::Boolean);
    }
    if same_text(name, "Sentence") {
        return Some(TypeKind::Sentence);
    }
    if same_text(name, "Paragraph") {
        return Some(TypeKind::Paragraph);
    }
    if same_text(name, "Password") {
        return Some(TypeKind::Password);
    }
    if same_text(name, "NumberWithFormat") {
        return Some(TypeKind::NumberWithFormat);
    }
    if same_text(name, "Geohash") {
        return Some(TypeKind::Geohash);
    }
    if same_text(name, "DateTimeBefore") {
        return Some(TypeKind::DateTimeBefore);
    }
    if same_text(name, "DateTimeAfter") {
        return Some(TypeKind::DateTimeAfter);
    }
    if same_text(name, "DateTimeBetween") {
        return Some(TypeKind::DateTimeBetween);
    }
    if same_text(name, "Word") {
        return Some(TypeKind::Text(TextKind::Word));
    }
    if same_text(name, "FirstName") {
        return Some(TypeKind::Text(TextKind::FirstName));
    }
    if same_text(name, "LastName") {
        return Some(TypeKind::Text(TextKind::LastName));
    }
    if same_text(name, "Title") {
        return Some(TypeKind::Text(TextKind::NameTitle));
    }
    if same_text(name, "Suffix") {
        return Some(TypeKind::Text(TextKind::Suffix));
    }
    if same_text(name, "Name") {
        return Some(TypeKind::Text(TextKind::Name));
    }
    if same_text(name, "NameWithTitle") {
        return Some(TypeKind::Text(TextKind::NameWithTitle));
    }
    if same_text(name, "Seniority") {
        return Some(TypeKind::Text(TextKind::Seniority));
    }
    if same_text(name, "Field") {
        return Some(TypeKind::Text(TextKind::Field));
    }
    if same_text(name, "Position") {
        return Some(TypeKind::Text(TextKind::Position));
    }
    if same_text(name, "JobTitle") {
        return Some(TypeKind::Text(TextKind::JobTitle));
    }
    if same_text(name, "Digit") {
        return Some(TypeKind::Text(TextKind::Digit));
    }
    if same_text(name, "FreeEmailProvider") {
        return Some(TypeKind::Text(TextKind::FreeEmailProvider));
    }
    if same_text(name, "DomainSuffix") {
        return Some(TypeKind::Text(TextKind::DomainSuffix));
    }
    if same_text(name, "FreeEmail") {
        return Some(TypeKind::Text(TextKind::FreeEmail));
    }
    if same_text(name, "SafeEmail") {
        return Some(TypeKind::Text(TextKind::SafeEmail));
    }
    if same_text(name, "Username") {
        return Some(TypeKind::Text(TextKind::Username));
    }
    if same_text(name, "IPv4") {
        return Some(TypeKind::Text(TextKind::IPv4));
    }
    if same_text(name, "IPv6") {
        return Some(TypeKind::Text(TextKind::IPv6));
    }
    if same_text(name, "IP") {
        return Some(TypeKind::Text(TextKind::IP));
    }
    if same_text(name, "MACAddress") {
        return Some(TypeKind::Text(TextKind::MACAddress));
    }
    if same_text(name, "UserAgent") {
        return Some(TypeKind::Text(TextKind::UserAgent));
    }
    if same_text(name, "RfcStatusCode") {
        return Some(TypeKind::Text(TextKind::RfcStatusCode));
    }
    if same_text(name, "ValidStatusCode") {
        return Some(TypeKind::Text(TextKind::ValidStatusCode));
    }
    if same_text(name, "HexColor") {
        return Some(TypeKind::Text(TextKind::HexColor));
    }
    if same_text(name, "RgbColor") {
        return Some(TypeKind::Text(TextKind::RgbColor));
    }
    if same_text(name, "RgbaColor") {
        return Some(TypeKind::Text(TextKind::RgbaColor));
    }
    if same_text(name, "HslColor") {
        return Some(TypeKind::Text(TextKind::HslColor));
    }
    if same_text(name, "HslaColor") {
        return Some(TypeKind::Text(TextKind::HslaColor));
    }
    if same_text(name, "Color") {
        return Some(TypeKind::Text(TextKind::Color));
    }
    if same_text(name, "CompanySuffix") {
        return Some(TypeKind::Text(TextKind::CompanySuffix));
    }
    if same_text(name, "CompanyName") {
        return Some(TypeKind::Text(TextKind::CompanyName));
    }
    if same_text(name, "Buzzword") {
        return Some(TypeKind::Text(TextKind::Buzzword));
    }
    if same_text(name, "BuzzwordMiddle") {
        return Some(TypeKind::Text(TextKind::BuzzwordMiddle));
    }
    if same_text(name, "BuzzwordTail") {
        return Some(TypeKind::Text(TextKind::BuzzwordTail));
    }
    if same_text(name, "CatchPhrase") {
        return Some(TypeKind::Text(TextKind::CatchPhrase));
    }
    if same_text(name, "BsVerb") {
        return Some(TypeKind::Text(TextKind::BsVerb));
    }
    if same_text(name, "BsAdj") {
        return Some(TypeKind::Text(TextKind::BsAdj));
    }
    if same_text(name, "BsNoun") {
        return Some(TypeKind::Text(TextKind::BsNoun));
    }
    if same_text(name, "Bs") {
        return Some(TypeKind::Text(TextKind::Bs));
    }
    if same_text(name, "Profession") {
        return Some(TypeKind::Text(TextKind::Profession));
    }
    if same_text(name, "Industry") {
        return Some(TypeKind::Text(TextKind::Industry));
    }
    if same_text(name, "CityPrefix") {
        return Some(TypeKind::Text(TextKind::CityPrefix));
    }
    if same_text(name, "CitySuffix") {
        return Some(TypeKind::Text(TextKind::CitySuffix));
    }
    if same_text(name, "CityName") {
        return Some(TypeKind::Text(TextKind::CityName));
    }
    if same_text(name, "CountryName") {
        return Some(TypeKind::Text(TextKind::CountryName));
    }
    if same_text(name, "CountryCode") {
        return Some(TypeKind::Text(TextKind::CountryCode));
    }
    if same_text(name, "StreetSuffix") {
        return Some(TypeKind::Text(TextKind::StreetSuffix));
    }
    if same_text(name, "StreetName") {
        return Some(TypeKind::Text(TextKind::StreetName));
    }
    if same_text(name, "TimeZone") {
        return Some(TypeKind::Text(TextKind::TimeZone));
    }
    if same_text(name, "StateName") {
        return Some(TypeKind::Text(TextKind::StateName));
    }
    if same_text(name, "StateAbbr") {
        return Some(TypeKind::Text(TextKind::StateAbbr));
    }
    if same_text(name, "SecondaryAddressType") {
        return Some(TypeKind::Text(TextKind::SecondaryAddressType));
    }
    if same_text(name, "SecondaryAddress") {
        return Some(TypeKind::Text(TextKind::SecondaryAddress));
    }
    if same_text(name, "ZipCode") {
        return Some(TypeKind::Text(TextKind::ZipCode));
    }
    if same_text(name, "PostCode") {
        return Some(TypeKind::Text(TextKind::PostCode));
    }
    if same_text(name, "BuildingNumber") {
        return Some(TypeKind::Text(TextKind::BuildingNumber));
    }
    if same_text(name, "Latitude") {
        return Some(TypeKind::Text(TextKind::Latitude));
    }
    if same_text(name, "Longitude") {
        return Some(TypeKind::Text(TextKind::Longitude));
    }
    if same_text(name, "LicencePlate") {
        return Some(TypeKind::Text(TextKind::LicencePlate));
    }
    if same_text(name, "Isbn") {
        return Some(TypeKind::Text(TextKind::Isbn));
    }
    if same_text(name, "Isbn13") {
        return Some(TypeKind::Text(TextKind::Isbn13));
    }
    if same_text(name, "Isbn10") {
        return Some(TypeKind::Text(TextKind::Isbn10));
    }
    if same_text(name, "PhoneNumber") {
        return Some(TypeKind::Text(TextKind::PhoneNumber));
    }
    if same_text(name, "CellNumber") {
        return Some(TypeKind::Text(TextKind::CellNumber));
    }
    if same_text(name, "Time") {
        return Some(TypeKind::Text(TextKind::Time));
    }
    if same_text(name, "Date") {
        return Some(TypeKind::Text(TextKind::Date));
    }
    if same_text(name, "DateTime") {
        return Some(TypeKind::Text(TextKind::DateTime));
    }
    if same_text(name, "FilePath") {
        return Some(TypeKind::Text(TextKind::FilePath));
    }
    if same_text(name, "FileName") {
        return Some(TypeKind::Text(TextKind::FileName));
    }
    if same_text(name, "FileExtension") {
        return Some(TypeKind::Text(TextKind::FileExtension));
    }
    if same_text(name, "DirPath") {
        return Some(TypeKind::Text(TextKind::DirPath));
    }
    if same_text(name, "Bic") {
        return Some(TypeKind::Text(TextKind::Bic));
    }
    if same_text(name, "CurrencyCode") {
        return Some(TypeKind::Text(TextKind::CurrencyCode));
    }
    if same_text(name, "CurrencyName") {
        return Some(TypeKind::Text(TextKind::CurrencyName));
    }
    if same_text(name, "CurrencySymbol") {
        return Some(TypeKind::Text(TextKind::CurrencySymbol));
    }
    if same_text(name, "CreditCardNumber") {
        return Some(TypeKind::Text(TextKind::CreditCardNumber));
    }
    if same_text(name, "Duration") {
        return Some(TypeKind::Text(TextKind::Duration));
    }
    if same_text(name, "UUIDv1") {
        return Some(TypeKind::Text(TextKind::UuidV1));
    }
    if same_text(name, "UUIDv3") {
        return Some(TypeKind::Text(TextKind::UuidV3));
    }
    if same_text(name, "UUIDv4") {
        return Some(TypeKind::Text(TextKind::UuidV4));
    }
    if same_text(name, "UUIDv5") {
        return Some(TypeKind::Text(TextKind::UuidV5));
    }
    if same_text(name, "BigDecimal") {
        return Some(TypeKind::Text(TextKind::BigDecimal));
    }
    if same_text(name, "PositiveBigDecimal") {
        return Some(TypeKind::Text(TextKind::PositiveBigDecimal));
    }
    if same_text(name, "NegativeBigDecimal") {
        return Some(TypeKind::Text(TextKind::NegativeBigDecimal));
    }
    if same_text(name, "NoBigDecimalPoints") {
        return Some(TypeKind::Text(TextKind::NoBigDecimalPoints));
    }
    None
}

} // verus!

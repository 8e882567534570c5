//! The fake-value provider: one synthetic value per fixed category,
//! reached through one trusted wrapper per provider function. Every call
//! is stateless and independent; nothing is promised of the values.

use vstd::prelude::*;
use fake::Fake;

verus! {

/// A fixed semantic category of synthetic values.
#[derive(Clone, Copy, Debug, PartialEq, Eq, Structural)]
pub enum Category {
    Digit,
    Username,
    DomainSuffix,
    Ipv4,
    Ipv6,
    Ip,
    MacAddress,
    FreeEmail,
    SafeEmail,
    FreeEmailProvider,
    Word,
    FirstName,
    LastName,
    Title,
    Suffix,
    FullName,
    NameWithTitle,
    FilePath,
    FileName,
    FileExtension,
    DirPath,
    CompanySuffix,
    CompanyName,
    Buzzword,
    BuzzwordMiddle,
    BuzzwordTail,
    CatchPhase,
    BsVerb,
    BsAdj,
    BsNoun,
    Bs,
    Profession,
    Industry,
    CityPrefix,
    CitySuffix,
    CityName,
    CountryName,
    CountryCode,
    StreetSuffix,
    StreetName,
    TimeZone,
    StateName,
    StateAbbr,
    SecondaryAddressType,
    SecondaryAddress,
    ZipCode,
    PostCode,
    BuildingNumber,
    Latitude,
    Longitude,
}

/// Relies on fake::faker::number::en::Digit: one synthetic value of that
/// category.
#[verifier::external_body]
fn fake_digit() -> String {
    fake::faker::number::en::Digit().fake::<String>()
}

/// Relies on fake::faker::internet::en::Username: one synthetic value of that
/// category.
#[verifier::external_body]
fn fake_username() -> String {
    fake::faker::internet::en::Username().fake::<String>()
}

/// Relies on fake::faker::internet::en::DomainSuffix: one synthetic value of that
/// category.
#[verifier::external_body]
fn fake_domain_suffix() -> String {
    fake::faker::internet::en::DomainSuffix().fake::<String>()
}

/// Relies on fake::faker::internet::en::IPv4: one synthetic value of that
/// category.
#[verifier::external_body]
fn fake_ipv4() -> String {
    fake::faker::internet::en::IPv4().fake::<String>()
}

/// Relies on fake::faker::internet::en::IPv6: one synthetic value of that
/// category.
#[verifier::external_body]
fn fake_ipv6() -> String {
    fake::faker::internet::en::IPv6().fake::<String>()
}

/// Relies on fake::faker::internet::en::IP: one synthetic value of that
/// category.
#[verifier::external_body]
fn fake_ip() -> String {
    fake::faker::internet::en::IP().fake::<String>()
}

/// Relies on fake::faker::internet::en::MACAddress: one synthetic value of that
/// category.
#[verifier::external_body]
fn fake_mac_address() -> String {
    fake::faker::internet::en::MACAddress().fake::<String>()
}

/// Relies on fake::faker::internet::en::FreeEmail: one synthetic value of that
/// category.
#[verifier::external_body]
fn fake_free_email() -> String {
    fake::faker::internet::en::FreeEmail().fake::<String>()
}

/// Relies on fake::faker::internet::en::SafeEmail: one synthetic value of that
/// category.
#[verifier::external_body]
fn fake_safe_email() -> String {
    fake::faker::internet::en::SafeEmail().fake::<String>()
}

/// Relies on fake::faker::internet::en::FreeEmailProvider: one synthetic value of that
/// category.
#[verifier::external_body]
fn fake_free_email_provider() -> String {
    fake::faker::internet::en::FreeEmailProvider().fake::<String>()
}

/// Relies on fake::faker::lorem::en::Word: one synthetic value of that
/// category.
#[verifier::external_body]
fn fake_word() -> String {
    fake::faker::lorem::en::Word().fake::<String>()
}

/// Relies on fake::faker::name::en::FirstName: one synthetic value of that
/// category.
#[verifier::external_body]
fn fake_first_name() -> String {
    fake::faker::name::en::FirstName().fake::<String>()
}

/// Relies on fake::faker::name::en::LastName: one synthetic value of that
/// category.
#[verifier::external_body]
fn fake_last_name() -> String {
    fake::faker::name::en::LastName().fake::<String>()
}

/// Relies on fake::faker::name::en::Title: one synthetic value of that
/// category.
#[verifier::external_body]
fn fake_title() -> String {
    fake::faker::name::en::Title().fake::<String>()
}

/// Relies on fake::faker::name::en::Suffix: one synthetic value of that
/// category.
#[verifier::external_body]
fn fake_suffix() -> String {
    fake::faker::name::en::Suffix().fake::<String>()
}

/// Relies on fake::faker::name::en::Name: one synthetic value of that
/// category.
#[verifier::external_body]
fn fake_full_name() -> String {
    fake::faker::name::en::Name().fake::<String>()
}

/// Relies on fake::faker::name::en::NameWithTitle: one synthetic value of that
/// category.
#[verifier::external_body]
fn fake_name_with_title() -> String {
    fake::faker::name::en::NameWithTitle().fake::<String>()
}

/// Relies on fake::faker::filesystem::en::FilePath: one synthetic value of that
/// category.
#[verifier::external_body]
fn fake_file_path() -> String {
    fake::faker::filesystem::en::FilePath().fake::<String>()
}

/// Relies on fake::faker::filesystem::en::FileName: one synthetic value of that
/// category.
#[verifier::external_body]
fn fake_file_name() -> String {
    fake::faker::filesystem::en::FileName().fake::<String>()
}

/// Relies on fake::faker::filesystem::en::FileExtension: one synthetic value of that
/// category.
#[verifier::external_body]
fn fake_file_extension() -> String {
    fake::faker::filesystem::en::FileExtension().fake::<String>()
}

/// Relies on fake::faker::filesystem::en::DirPath: one synthetic value of that
/// category.
#[verifier::external_body]
fn fake_dir_path() -> String {
    fake::faker::filesystem::en::DirPath().fake::<String>()
}

/// Relies on fake::faker::company::en::CompanySuffix: one synthetic value of that
/// category.
#[verifier::external_body]
fn fake_company_suffix() -> String {
    fake::faker::company::en::CompanySuffix().fake::<String>()
}

/// Relies on fake::faker::company::en::CompanyName: one synthetic value of that
/// category.
#[verifier::external_body]
fn fake_company_name() -> String {
    fake::faker::company::en::CompanyName().fake::<String>()
}

/// Relies on fake::faker::company::en::Buzzword: one synthetic value of that
/// category.
#[verifier::external_body]
fn fake_buzzword() -> String {
    fake::faker::company::en::Buzzword().fake::<String>()
}

/// Relies on fake::faker::company::en::BuzzwordMiddle: one synthetic value of that
/// category.
#[verifier::external_body]
fn fake_buzzword_middle() -> String {
    fake::faker::company::en::BuzzwordMiddle().fake::<String>()
}

/// Relies on fake::faker::company::en::BuzzwordTail: one synthetic value of that
/// category.
#[verifier::external_body]
fn fake_buzzword_tail() -> String {
    fake::faker::company::en::BuzzwordTail().fake::<String>()
}

/// Relies on fake::faker::company::en::CatchPhrase: one synthetic value of that
/// category.
#[verifier::external_body]
fn fake_catch_phase() -> String {
    fake::faker::company::en::CatchPhrase().fake::<String>()
}

/// Relies on fake::faker::company::en::BsVerb: one synthetic value of that
/// category.
#[verifier::external_body]
fn fake_bs_verb() -> String {
    fake::faker::company::en::BsVerb().fake::<String>()
}

/// Relies on fake::faker::company::en::BsAdj: one synthetic value of that
/// category.
#[verifier::external_body]
fn fake_bs_adj() -> String {
    fake::faker::company::en::BsAdj().fake::<String>()
}

/// Relies on fake::faker::company::en::BsNoun: one synthetic value of that
/// category.
#[verifier::external_body]
fn fake_bs_noun() -> String {
    fake::faker::company::en::BsNoun().fake::<String>()
}

/// Relies on fake::faker::company::en::Bs: one synthetic value of that
/// category.
#[verifier::external_body]
fn fake_bs() -> String {
    fake::faker::company::en::Bs().fake::<String>()
}

/// Relies on fake::faker::company::en::Profession: one synthetic value of that
/// category.
#[verifier::external_body]
fn fake_profession() -> String {
    fake::faker::company::en::Profession().fake::<String>()
}

/// Relies on fake::faker::company::en::Industry: one synthetic value of that
/// category.
#[verifier::external_body]
fn fake_industry() -> String {
    fake::faker::company::en::Industry().fake::<String>()
}

/// Relies on fake::faker::address::en::CityPrefix: one synthetic value of that
/// category.
#[verifier::external_body]
fn fake_city_prefix() -> String {
    fake::faker::address::en::CityPrefix().fake::<String>()
}

/// Relies on fake::faker::address::en::CitySuffix: one synthetic value of that
/// category.
#[verifier::external_body]
fn fake_city_suffix() -> String {
    fake::faker::address::en::CitySuffix().fake::<String>()
}

/// Relies on fake::faker::address::en::CityName: one synthetic value of that
/// category.
#[verifier::external_body]
fn fake_city_name() -> String {
    fake::faker::address::en::CityName().fake::<String>()
}

/// Relies on fake::faker::address::en::CountryName: one synthetic value of that
/// category.
#[verifier::external_body]
fn fake_country_name() -> String {
    fake::faker::address::en::CountryName().fake::<String>()
}

/// Relies on fake::faker::address::en::CountryCode: one synthetic value of that
/// category.
#[verifier::external_body]
fn fake_country_code() -> String {
    fake::faker::address::en::CountryCode().fake::<String>()
}

/// Relies on fake::faker::address::en::StreetSuffix: one synthetic value of that
/// category.
#[verifier::external_body]
fn fake_street_suffix() -> String {
    fake::faker::address::en::StreetSuffix().fake::<String>()
}

/// Relies on fake::faker::address::en::StreetName: one synthetic value of that
/// category.
#[verifier::external_body]
fn fake_street_name() -> String {
    fake::faker::address::en::StreetName().fake::<String>()
}

/// Relies on fake::faker::address::en::TimeZone: one synthetic value of that
/// category.
#[verifier::external_body]
fn fake_time_zone() -> String {
    fake::faker::address::en::TimeZone().fake::<String>()
}

/// Relies on fake::faker::address::en::StateName: one synthetic value of that
/// category.
#[verifier::external_body]
fn fake_state_name() -> String {
    fake::faker::address::en::StateName().fake::<String>()
}

/// Relies on fake::faker::address::en::StateAbbr: one synthetic value of that
/// category.
#[verifier::external_body]
fn fake_state_abbr() -> String {
    fake::faker::address::en::StateAbbr().fake::<String>()
}

/// Relies on fake::faker::address::en::SecondaryAddressType: one synthetic value of that
/// category.
#[verifier::external_body]
fn fake_secondary_address_type() -> String {
    fake::faker::address::en::SecondaryAddressType().fake::<String>()
}

/// Relies on fake::faker::address::en::SecondaryAddress: one synthetic value of that
/// category.
#[verifier::external_body]
fn fake_secondary_address() -> String {
    fake::faker::address::en::SecondaryAddress().fake::<String>()
}

/// Relies on fake::faker::address::en::ZipCode: one synthetic value of that
/// category.
#[verifier::external_body]
fn fake_zip_code() -> String {
    fake::faker::address::en::ZipCode().fake::<String>()
}

/// Relies on fake::faker::address::en::PostCode: one synthetic value of that
/// category.
#[verifier::external_body]
fn fake_post_code() -> String {
    fake::faker::address::en::PostCode().fake::<String>()
}

/// Relies on fake::faker::address::en::BuildingNumber: one synthetic value of that
/// category.
#[verifier::external_body]
fn fake_building_number() -> String {
    fake::faker::address::en::BuildingNumber().fake::<String>()
}

/// Relies on fake::faker::address::en::Latitude: one synthetic value of that
/// category.
#[verifier::external_body]
fn fake_latitude() -> String {
    fake::faker::address::en::Latitude().fake::<String>()
}

/// Relies on fake::faker::address::en::Longitude: one synthetic value of that
/// category.
#[verifier::external_body]
fn fake_longitude() -> String {
    fake::faker::address::en::Longitude().fake::<String>()
}

/// One synthetic value for `cat`, from the outside fake-value provider.
/// Each call is independent; no cross-call consistency is guaranteed.
pub fn generate(cat: Category) -> String {
    match cat {
        Category::Digit => fake_digit(),
        Category::Username => fake_username(),
        Category::DomainSuffix => fake_domain_suffix(),
        Category::Ipv4 => fake_ipv4(),
        Category::Ipv6 => fake_ipv6(),
        Category::Ip => fake_ip(),
        Category::MacAddress => fake_mac_address(),
        Category::FreeEmail => fake_free_email(),
        Category::SafeEmail => fake_safe_email(),
        Category::FreeEmailProvider => fake_free_email_provider(),
        Category::Word => fake_word(),
        Category::FirstName => fake_first_name(),
        Category::LastName => fake_last_name(),
        Category::Title => fake_title(),
        Category::Suffix => fake_suffix(),
        Category::FullName => fake_full_name(),
        Category::NameWithTitle => fake_name_with_title(),
        Category::FilePath => fake_file_path(),
        Category::FileName => fake_file_name(),
        Category::FileExtension => fake_file_extension(),
        Category::DirPath => fake_dir_path(),
        Category::CompanySuffix => fake_company_suffix(),
        Category::CompanyName => fake_company_name(),
        Category::Buzzword => fake_buzzword(),
        Category::BuzzwordMiddle => fake_buzzword_middle(),
        Category::BuzzwordTail => fake_buzzword_tail(),
        Category::CatchPhase => fake_catch_phase(),
        Category::BsVerb => fake_bs_verb(),
        Category::BsAdj => fake_bs_adj(),
        Category::BsNoun => fake_bs_noun(),
        Category::Bs => fake_bs(),
        Category::Profession => fake_profession(),
        Category::Industry => fake_industry(),
        Category::CityPrefix => fake_city_prefix(),
        Category::CitySuffix => fake_city_suffix(),
        Category::CityName => fake_city_name(),
        Category::CountryName => fake_country_name(),
        Category::CountryCode => fake_country_code(),
        Category::StreetSuffix => fake_street_suffix(),
        Category::StreetName => fake_street_name(),
        Category::TimeZone => fake_time_zone(),
        Category::StateName => fake_state_name(),
        Category::StateAbbr => fake_state_abbr(),
        Category::SecondaryAddressType => fake_secondary_address_type(),
        Category::SecondaryAddress => fake_secondary_address(),
        Category::ZipCode => fake_zip_code(),
        Category::PostCode => fake_post_code(),
        Category::BuildingNumber => fake_building_number(),
        Category::Latitude => fake_latitude(),
        Category::Longitude => fake_longitude(),
    }
}

} // verus!

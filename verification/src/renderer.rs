//! The document renderer: owns the generator registry and a handle to the
//! templating engine, registers every generator at construction, and
//! exposes rendering and registry introspection.

use vstd::prelude::*;
use crate::engine::{
    error_text, register_chance, register_date, register_fake, register_hash, register_now,
    register_random_value, register_randomint, render_template, tera_new,
};
use crate::errors::RenderError;
use crate::fakes::Category;
use crate::registry::{reg_map_of, Registry};

verus! {

/// The names of the fake-data generators, in registration order.
pub open spec fn fake_names() -> Seq<Seq<char>> {
    seq![
        "digit"@,
        "username"@,
        "domainsuffix"@,
        "ipv4"@,
        "ipv6"@,
        "ip"@,
        "macaddress"@,
        "freeemail"@,
        "safeemail"@,
        "freeemailprovider"@,
        "word"@,
        "firstname"@,
        "lastname"@,
        "title"@,
        "suffix"@,
        "name"@,
        "namewithtitle"@,
        "filepath"@,
        "filename"@,
        "fileextension"@,
        "dirpath"@,
        "companysuffix"@,
        "companyname"@,
        "buzzword"@,
        "buzzwordmiddle"@,
        "buzzwordtail"@,
        "catchphase"@,
        "bsverb"@,
        "bsadj"@,
        "bsnoun"@,
        "bs"@,
        "profession"@,
        "industry"@,
        "cityprefix"@,
        "citysuffix"@,
        "cityname"@,
        "countryname"@,
        "countrycode"@,
        "streetsuffix"@,
        "streetname"@,
        "timezone"@,
        "statename"@,
        "stateabbr"@,
        "secondaryaddresstype"@,
        "secondaryaddress"@,
        "zipcode"@,
        "postcode"@,
        "buildingnumber"@,
        "latitude"@,
        "longitude"@,
    ]
}

/// The declarative table behind the fake-data generators: template name,
/// human-readable description, and provider category.
fn fake_entries() -> (v: Vec<(&'static str, &'static str, Category)>)
    ensures
        v@.len() == fake_names().len(),
        forall|i: int| 0 <= i < v@.len() ==> (#[trigger] v@[i]).0@ == fake_names()[i],
{
    let mut v: Vec<(&'static str, &'static str, Category)> = Vec::new();
    v.push(("digit", "fake::faker::number::en::Digit", Category::Digit));
    v.push(("username", "fake::faker::internet::en::Username", Category::Username));
    v.push(("domainsuffix", "fake::faker::internet::en::DomainSuffix", Category::DomainSuffix));
    v.push(("ipv4", "fake::faker::internet::en::IPv4", Category::Ipv4));
    v.push(("ipv6", "fake::faker::internet::en::IPv6", Category::Ipv6));
    v.push(("ip", "fake::faker::internet::en::IP", Category::Ip));
    v.push(("macaddress", "fake::faker::internet::en::MACAddress", Category::MacAddress));
    v.push(("freeemail", "fake::faker::internet::en::FreeEmail", Category::FreeEmail));
    v.push(("safeemail", "fake::faker::internet::en::SafeEmail", Category::SafeEmail));
    v.push(("freeemailprovider", "fake::faker::internet::en::FreeEmailProvider", Category::FreeEmailProvider));
    v.push(("word", "fake::faker::lorem::en::Word", Category::Word));
    v.push(("firstname", "fake::faker::name::en::FirstName", Category::FirstName));
    v.push(("lastname", "fake::faker::name::en::LastName", Category::LastName));
    v.push(("title", "fake::faker::name::en::Title", Category::Title));
    v.push(("suffix", "fake::faker::name::en::Suffix", Category::Suffix));
    v.push(("name", "fake::faker::name::en::Name", Category::FullName));
    v.push(("namewithtitle", "fake::faker::name::en::NameWithTitle", Category::NameWithTitle));
    v.push(("filepath", "fake::faker::filesystem::en::FilePath", Category::FilePath));
    v.push(("filename", "fake::faker::filesystem::en::FileName", Category::FileName));
    v.push(("fileextension", "fake::faker::filesystem::en::FileExtension", Category::FileExtension));
    v.push(("dirpath", "fake::faker::filesystem::en::DirPath", Category::DirPath));
    v.push(("companysuffix", "fake::faker::company::en::CompanySuffix", Category::CompanySuffix));
    v.push(("companyname", "fake::faker::company::en::CompanyName", Category::CompanyName));
    v.push(("buzzword", "fake::faker::company::en::Buzzword", Category::Buzzword));
    v.push(("buzzwordmiddle", "fake::faker::company::en::BuzzwordMiddle", Category::BuzzwordMiddle));
    v.push(("buzzwordtail", "fake::faker::company::en::BuzzwordTail", Category::BuzzwordTail));
    v.push(("catchphase", "fake::faker::company::en::CatchPhrase", Category::CatchPhase));
    v.push(("bsverb", "fake::faker::company::en::BsVerb", Category::BsVerb));
    v.push(("bsadj", "fake::faker::company::en::BsAdj", Category::BsAdj));
    v.push(("bsnoun", "fake::faker::company::en::BsNoun", Category::BsNoun));
    v.push(("bs", "fake::faker::company::en::Bs", Category::Bs));
    v.push(("profession", "fake::faker::company::en::Profession", Category::Profession));
    v.push(("industry", "fake::faker::company::en::Industry", Category::Industry));
    v.push(("cityprefix", "fake::faker::address::en::CityPrefix", Category::CityPrefix));
    v.push(("citysuffix", "fake::faker::address::en::CitySuffix", Category::CitySuffix));
    v.push(("cityname", "fake::faker::address::en::CityName", Category::CityName));
    v.push(("countryname", "fake::faker::address::en::CountryName", Category::CountryName));
    v.push(("countrycode", "fake::faker::address::en::CountryCode", Category::CountryCode));
    v.push(("streetsuffix", "fake::faker::address::en::StreetSuffix", Category::StreetSuffix));
    v.push(("streetname", "fake::faker::address::en::StreetName", Category::StreetName));
    v.push(("timezone", "fake::faker::address::en::TimeZone", Category::TimeZone));
    v.push(("statename", "fake::faker::address::en::StateName", Category::StateName));
    v.push(("stateabbr", "fake::faker::address::en::StateAbbr", Category::StateAbbr));
    v.push(("secondaryaddresstype", "fake::faker::address::en::SecondaryAddressType", Category::SecondaryAddressType));
    v.push(("secondaryaddress", "fake::faker::address::en::SecondaryAddress", Category::SecondaryAddress));
    v.push(("zipcode", "fake::faker::address::en::ZipCode", Category::ZipCode));
    v.push(("postcode", "fake::faker::address::en::PostCode", Category::PostCode));
    v.push(("buildingnumber", "fake::faker::address::en::BuildingNumber", Category::BuildingNumber));
    v.push(("latitude", "fake::faker::address::en::Latitude", Category::Latitude));
    v.push(("longitude", "fake::faker::address::en::Longitude", Category::Longitude));
    v
}

/// Owns one registry and one templating-engine handle; the engine holds
/// the registered function bindings. No per-call state is kept between
/// renders.
pub struct DocumentRenderer {
    generators: Registry,
    tera: tera::Tera,
}

impl DocumentRenderer {
    /// The name-to-description mapping this renderer carries.
    pub closed spec fn registry(&self) -> Map<Seq<char>, Seq<char>> {
        self.generators@
    }

    /// Renders the template against an empty variable context: all
    /// dynamism comes from generator calls. All-or-nothing: a template
    /// error or a failing generator call aborts the whole render. The
    /// registry is left untouched.
    pub fn render(&mut self, template: &str) -> (r: Result<String, RenderError>)
        ensures
            final(self).registry() == old(self).registry(),
    {
        match render_template(&mut self.tera, template) {
            Ok(s) => Ok(s),
            Err(e) => Err(RenderError::new(error_text(&e))),
        }
    }

    /// The registry snapshot: generator name to description.
    pub fn get_generators(&self) -> (r: Vec<(String, String)>)
        ensures
            reg_map_of(r@) == self.registry(),
    {
        self.generators.get_all()
    }

    /// Registers one fake-data generator under `name`, in the engine and
    /// in the registry.
    fn register_fake_generator(&mut self, name: &str, description: &str, cat: Category)
        ensures
            final(self).registry() == old(self).registry().insert(name@, description@),
    {
        register_fake(&mut self.tera, name, cat);
        self.generators.register(String::from_str(name), String::from_str(description));
    }

    /// Registers the six algorithmic generators.
    fn register_core_generators(&mut self)
        ensures
            forall|k: Seq<char>|
                old(self).registry().contains_key(k) ==> final(self).registry().contains_key(k),
            final(self).registry().contains_key("date"@),
            final(self).registry().contains_key("now"@),
            final(self).registry().contains_key("hash"@),
            final(self).registry().contains_key("random_value"@),
            final(self).registry().contains_key("chance"@),
            final(self).registry().contains_key("randomint"@),
    {
        register_date(&mut self.tera);
        self.generators.register(
            String::from_str("date"),
            String::from_str(
                "Generates random date. Optional negative offset can be passed to specify the amount of days to be subtracted, via 'sub_rnd_days' param.",
            ),
        );
        register_now(&mut self.tera);
        self.generators.register(String::from_str("now"), String::from_str("Current date"));
        register_hash(&mut self.tera);
        self.generators.register(
            String::from_str("hash"),
            String::from_str("16-character long alpha-num hash"),
        );
        register_random_value(&mut self.tera);
        self.generators.register(
            String::from_str("random_value"),
            String::from_str(
                "Get random value from set configured with the 'options' parameter, eg. options='a|b|c'",
            ),
        );
        register_chance(&mut self.tera);
        self.generators.register(
            String::from_str("chance"),
            String::from_str(
                "Roll a dice within range, if 0 is rolled then return first option, else 2nd",
            ),
        );
        register_randomint(&mut self.tera);
        self.generators.register(
            String::from_str("randomint"),
            String::from_str("Roll a dice within a range"),
        );
    }

    /// Registers every generator: the six algorithmic ones, then the
    /// fake-data table, one registration per row.
    fn register_generators(&mut self)
        ensures
            final(self).registry().contains_key("date"@),
            final(self).registry().contains_key("now"@),
            final(self).registry().contains_key("hash"@),
            final(self).registry().contains_key("random_value"@),
            final(self).registry().contains_key("chance"@),
            final(self).registry().contains_key("randomint"@),
            forall|i: int|
                0 <= i < fake_names().len() ==> final(self).registry().contains_key(
                    #[trigger] fake_names()[i],
                ),
    {
        self.register_core_generators();
        let table = fake_entries();
        let mut i: usize = 0;
        while i < table.len()
            invariant
                table@.len() == fake_names().len(),
                forall|idx: int|
                    0 <= idx < table@.len() ==> (#[trigger] table@[idx]).0@ == fake_names()[idx],
                self.registry().contains_key("date"@),
                self.registry().contains_key("now"@),
                self.registry().contains_key("hash"@),
                self.registry().contains_key("random_value"@),
                self.registry().contains_key("chance"@),
                self.registry().contains_key("randomint"@),
                forall|j: int|
                    0 <= j < i ==> self.registry().contains_key(#[trigger] fake_names()[j]),
            decreases table@.len() - i,
        {
            let row = table[i];
            self.register_fake_generator(row.0, row.1, row.2);
            i = i + 1;
        }
    }

    /// A renderer with an empty registry and a fresh engine.
    fn new() -> (r: DocumentRenderer)
        ensures
            r.registry() == Map::<Seq<char>, Seq<char>>::empty(),
    {
        DocumentRenderer { generators: Registry::new(), tera: tera_new() }
    }
}

/// Builds fully-registered renderers.
pub struct DocumentRendererFactory {}

impl DocumentRendererFactory {
    /// A renderer whose registry holds every generator: the six
    /// algorithmic ones and one per fake-data category.
    pub fn create_renderer() -> (r: DocumentRenderer)
        ensures
            r.registry().contains_key("date"@),
            r.registry().contains_key("now"@),
            r.registry().contains_key("hash"@),
            r.registry().contains_key("random_value"@),
            r.registry().contains_key("chance"@),
            r.registry().contains_key("randomint"@),
            forall|i: int|
                0 <= i < fake_names().len() ==> r.registry().contains_key(
                    #[trigger] fake_names()[i],
                ),
    {
        let mut document_renderer = DocumentRenderer::new();
        document_renderer.register_generators();
        document_renderer
    }
}

} // verus!

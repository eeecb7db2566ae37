//! The domains of temporary email addresses.

use vstd::prelude::*;
use vstd::std_specs::cmp::PartialEqSpecImpl;
use vstd::std_specs::convert::FromSpecImpl;

verus! {

/// The domain of a temporary email address: one of the catalogued domains, or
/// any other domain as a custom string.
#[derive(Debug, Hash)]
#[non_exhaustive]
pub enum Domain {
    /// A domain outside the catalog, held as written.
    /// Some providers accept such domains or subdomains.
    Custom(String),
    // Domains served by Muellmail.
    /// The 10minmail.de domain.
    TenMinMailDe,
    /// The 10minutenmail.xyz domain.
    TenMinutenMailXyz,
    /// The existiert.net domain.
    ExistiertNet,
    /// The fliegender.fish domain.
    FliegenderFish,
    /// The jaga.email domain.
    JagaEmail,
    /// The mdz.email domain.
    MdzEmail,
    /// The muellmail.com domain.
    MuellMailCom,
    /// The muellemail.com domain.
    MuelleMailCom,
    /// The muell.monster domain.
    MuellMonster,
    /// The muell.icu domain.
    MuellIcu,
    /// The muell.io domain.
    MuellIo,
    /// The muell.xyz domain.
    MuellXyz,
    /// The magspam.net domain.
    MagSpamNet,
    /// The fukaru.com domain.
    FukaruCom,
    /// The oida.icu domain.
    OidaIcu,
    /// The papierkorb.me domain.
    PapierkorbMe,
    /// The spam.care domain.
    SpamCare,
    /// The tonne.to domain.
    TonneTo,
    /// The ultra.fyi domain.
    UltraFyi,
    /// The wegwerfemail.de domain.
    WegwerfEmailDe,
    /// The dsgvo.party domain.
    DsgvoParty,
    /// The knickerbockerban.de domain.
    KnickerbockerbanDe,
    /// The lambsauce.de domain.
    LambsauceDe,
    /// The ramenmail.de domain.
    RamenMailDe,
    /// The ji5.de domain.
    Ji5De,
    /// The ji6.de domain.
    Ji6De,
    /// The ji7.de domain.
    Ji7De,
    /// The sudern.de domain.
    SudernDe,
    /// The hihi.lol domain.
    HihiLol,
    /// The kein.date domain.
    KeinDate,
    /// The holio.day domain.
    HolioDay,
    /// The corn.holio.day domain.
    CornHolioDay,
    /// The bung.holio.day domain.
    BungHolioDay,
    /// The stacys.mom domain.
    StacysMom,
    // Domain served by FakeMail.net.
    /// The filesaved.org domain.
    FileSavedOrg,
    // Domains served by TempMail.lol.
    /// The terriblecoffee.org domain.
    TerribleCoffeeOrg,
    /// The underseagolf.com domain.
    UnderseaGolfCom,
    /// The jailbreakeverything.com domain.
    JailBreakEverythingCom,
    /// The awesome47.com domain.
    Awesome47,
    /// The expiredtoaster.org domain.
    ExpiredToasterOrg,
    /// The undeadbank.com domain.
    UndeadBankCom,
}

/// What a [`Domain`] stands for: its textual name, and whether it was given as
/// a custom string rather than taken from the catalog.
pub struct DomainView {
    pub custom: bool,
    pub name: Seq<char>,
}

impl View for Domain {
    type V = DomainView;

    open spec fn view(&self) -> DomainView {
        DomainView { custom: self is Custom, name: self.name() }
    }
}

impl DeepView for Domain {
    type V = DomainView;

    open spec fn deep_view(&self) -> DomainView {
        self@
    }
}

impl Domain {
    /// Every catalogued domain, in catalog order. Custom domains are not part of it.
    pub open spec fn catalog() -> Seq<Domain> {
        seq![
            Domain::TenMinMailDe,
            Domain::TenMinutenMailXyz,
            Domain::ExistiertNet,
            Domain::FliegenderFish,
            Domain::JagaEmail,
            Domain::MdzEmail,
            Domain::MuellMailCom,
            Domain::MuelleMailCom,
            Domain::MuellMonster,
            Domain::MuellIcu,
            Domain::MuellIo,
            Domain::MuellXyz,
            Domain::MagSpamNet,
            Domain::FukaruCom,
            Domain::OidaIcu,
            Domain::PapierkorbMe,
            Domain::SpamCare,
            Domain::TonneTo,
            Domain::UltraFyi,
            Domain::WegwerfEmailDe,
            Domain::DsgvoParty,
            Domain::KnickerbockerbanDe,
            Domain::LambsauceDe,
            Domain::RamenMailDe,
            Domain::Ji5De,
            Domain::Ji6De,
            Domain::Ji7De,
            Domain::SudernDe,
            Domain::HihiLol,
            Domain::KeinDate,
            Domain::HolioDay,
            Domain::CornHolioDay,
            Domain::BungHolioDay,
            Domain::StacysMom,
            Domain::FileSavedOrg,
            Domain::TerribleCoffeeOrg,
            Domain::UnderseaGolfCom,
            Domain::JailBreakEverythingCom,
            Domain::Awesome47,
            Domain::ExpiredToasterOrg,
            Domain::UndeadBankCom,
        ]
    }

    /// The textual form of a domain.
    pub open spec fn name(self) -> Seq<char> {
        match self {
            Domain::Custom(custom) => custom@,
            Domain::TenMinMailDe => "10minmail.de"@,
            Domain::TenMinutenMailXyz => "10minutenmail.xyz"@,
            Domain::ExistiertNet => "existiert.net"@,
            Domain::FliegenderFish => "fliegender.fish"@,
            Domain::JagaEmail => "jaga.email"@,
            Domain::MdzEmail => "mdz.email"@,
            Domain::MuellMailCom => "muellmail.com"@,
            Domain::MuelleMailCom => "muellemail.com"@,
            Domain::MuellMonster => "muell.monster"@,
            Domain::MuellIcu => "muell.icu"@,
            Domain::MuellIo => "muell.io"@,
            Domain::MuellXyz => "muell.xyz"@,
            Domain::MagSpamNet => "magspam.net"@,
            Domain::FukaruCom => "fukaru.com"@,
            Domain::OidaIcu => "oida.icu"@,
            Domain::PapierkorbMe => "papierkorb.me"@,
            Domain::SpamCare => "spam.care"@,
            Domain::TonneTo => "tonne.to"@,
            Domain::UltraFyi => "ultra.fyi"@,
            Domain::WegwerfEmailDe => "wegwerfemail.de"@,
            Domain::DsgvoParty => "dsgvo.party"@,
            Domain::KnickerbockerbanDe => "knickerbockerban.de"@,
            Domain::LambsauceDe => "lambsauce.de"@,
            Domain::RamenMailDe => "ramenmail.de"@,
            Domain::Ji5De => "ji5.de"@,
            Domain::Ji6De => "ji6.de"@,
            Domain::Ji7De => "ji7.de"@,
            Domain::SudernDe => "sudern.de"@,
            Domain::HihiLol => "hihi.lol"@,
            Domain::KeinDate => "kein.date"@,
            Domain::HolioDay => "holio.day"@,
            Domain::CornHolioDay => "corn.holio.day"@,
            Domain::BungHolioDay => "bung.holio.day"@,
            Domain::StacysMom => "stacys.mom"@,
            Domain::FileSavedOrg => "filesaved.org"@,
            Domain::TerribleCoffeeOrg => "terriblecoffee.org"@,
            Domain::UnderseaGolfCom => "underseagolf.com"@,
            Domain::JailBreakEverythingCom => "jailbreakeverything.com"@,
            Domain::Awesome47 => "awesome47.com"@,
            Domain::ExpiredToasterOrg => "expiredtoaster.org"@,
            Domain::UndeadBankCom => "undeadbank.com"@,
        }
    }

    /// Whether `text` is the name of a catalogued domain.
    pub open spec fn is_catalog_name(text: Seq<char>) -> bool {
        exists|i: int| 0 <= i < Self::catalog().len() && #[trigger] Self::catalog()[i].name() == text
    }

    /// The domain that `text` denotes: the catalogued domain of that name if
    /// there is one, else the custom domain `text`.
    pub open spec fn parse(text: Seq<char>) -> DomainView {
        DomainView { custom: !Self::is_catalog_name(text), name: text }
    }

    /// Returns every catalogued domain, in catalog order.
    pub fn get_all_domains() -> (domains: Vec<Domain>)
        ensures
            domains@ == Self::catalog(),
    {
        let domains = vec![
            Domain::TenMinMailDe,
            Domain::TenMinutenMailXyz,
            Domain::ExistiertNet,
            Domain::FliegenderFish,
            Domain::JagaEmail,
            Domain::MdzEmail,
            Domain::MuellMailCom,
            Domain::MuelleMailCom,
            Domain::MuellMonster,
            Domain::MuellIcu,
            Domain::MuellIo,
            Domain::MuellXyz,
            Domain::MagSpamNet,
            Domain::FukaruCom,
            Domain::OidaIcu,
            Domain::PapierkorbMe,
            Domain::SpamCare,
            Domain::TonneTo,
            Domain::UltraFyi,
            Domain::WegwerfEmailDe,
            Domain::DsgvoParty,
            Domain::KnickerbockerbanDe,
            Domain::LambsauceDe,
            Domain::RamenMailDe,
            Domain::Ji5De,
            Domain::Ji6De,
            Domain::Ji7De,
            Domain::SudernDe,
            Domain::HihiLol,
            Domain::KeinDate,
            Domain::HolioDay,
            Domain::CornHolioDay,
            Domain::BungHolioDay,
            Domain::StacysMom,
            Domain::FileSavedOrg,
            Domain::TerribleCoffeeOrg,
            Domain::UnderseaGolfCom,
            Domain::JailBreakEverythingCom,
            Domain::Awesome47,
            Domain::ExpiredToasterOrg,
            Domain::UndeadBankCom,
        ];
        assert(domains@ =~= Self::catalog());
        domains
    }

    /// Returns the textual form of the domain.
    pub fn to_string(&self) -> (text: String)
        ensures
            text@ == self.name(),
    {
        match self {
            Domain::Custom(custom) => custom.clone(),
            Domain::TenMinMailDe => "10minmail.de".to_owned(),
            Domain::TenMinutenMailXyz => "10minutenmail.xyz".to_owned(),
            Domain::ExistiertNet => "existiert.net".to_owned(),
            Domain::FliegenderFish => "fliegender.fish".to_owned(),
            Domain::JagaEmail => "jaga.email".to_owned(),
            Domain::MdzEmail => "mdz.email".to_owned(),
            Domain::MuellMailCom => "muellmail.com".to_owned(),
            Domain::MuelleMailCom => "muellemail.com".to_owned(),
            Domain::MuellMonster => "muell.monster".to_owned(),
            Domain::MuellIcu => "muell.icu".to_owned(),
            Domain::MuellIo => "muell.io".to_owned(),
            Domain::MuellXyz => "muell.xyz".to_owned(),
            Domain::MagSpamNet => "magspam.net".to_owned(),
            Domain::FukaruCom => "fukaru.com".to_owned(),
            Domain::OidaIcu => "oida.icu".to_owned(),
            Domain::PapierkorbMe => "papierkorb.me".to_owned(),
            Domain::SpamCare => "spam.care".to_owned(),
            Domain::TonneTo => "tonne.to".to_owned(),
            Domain::UltraFyi => "ultra.fyi".to_owned(),
            Domain::WegwerfEmailDe => "wegwerfemail.de".to_owned(),
            Domain::DsgvoParty => "dsgvo.party".to_owned(),
            Domain::KnickerbockerbanDe => "knickerbockerban.de".to_owned(),
            Domain::LambsauceDe => "lambsauce.de".to_owned(),
            Domain::RamenMailDe => "ramenmail.de".to_owned(),
            Domain::Ji5De => "ji5.de".to_owned(),
            Domain::Ji6De => "ji6.de".to_owned(),
            Domain::Ji7De => "ji7.de".to_owned(),
            Domain::SudernDe => "sudern.de".to_owned(),
            Domain::HihiLol => "hihi.lol".to_owned(),
            Domain::KeinDate => "kein.date".to_owned(),
            Domain::HolioDay => "holio.day".to_owned(),
            Domain::CornHolioDay => "corn.holio.day".to_owned(),
            Domain::BungHolioDay => "bung.holio.day".to_owned(),
            Domain::StacysMom => "stacys.mom".to_owned(),
            Domain::FileSavedOrg => "filesaved.org".to_owned(),
            Domain::TerribleCoffeeOrg => "terriblecoffee.org".to_owned(),
            Domain::UnderseaGolfCom => "underseagolf.com".to_owned(),
            Domain::JailBreakEverythingCom => "jailbreakeverything.com".to_owned(),
            Domain::Awesome47 => "awesome47.com".to_owned(),
            Domain::ExpiredToasterOrg => "expiredtoaster.org".to_owned(),
            Domain::UndeadBankCom => "undeadbank.com".to_owned(),
        }
    }

    /// Whether the domain is a custom one.
    pub fn is_custom(&self) -> (custom: bool)
        ensures
            custom == (self is Custom),
    {
        match self {
            Domain::Custom(_) => true,
            _ => false,
        }
    }

    /// The position of a catalogued domain in the catalog.
    fn ordinal(&self) -> (position: usize)
        requires
            !(self is Custom),
        ensures
            position < Self::catalog().len(),
            Self::catalog()[position as int] == *self,
    {
        match self {
            Domain::Custom(_) => 0,
            Domain::TenMinMailDe => 0,
            Domain::TenMinutenMailXyz => 1,
            Domain::ExistiertNet => 2,
            Domain::FliegenderFish => 3,
            Domain::JagaEmail => 4,
            Domain::MdzEmail => 5,
            Domain::MuellMailCom => 6,
            Domain::MuelleMailCom => 7,
            Domain::MuellMonster => 8,
            Domain::MuellIcu => 9,
            Domain::MuellIo => 10,
            Domain::MuellXyz => 11,
            Domain::MagSpamNet => 12,
            Domain::FukaruCom => 13,
            Domain::OidaIcu => 14,
            Domain::PapierkorbMe => 15,
            Domain::SpamCare => 16,
            Domain::TonneTo => 17,
            Domain::UltraFyi => 18,
            Domain::WegwerfEmailDe => 19,
            Domain::DsgvoParty => 20,
            Domain::KnickerbockerbanDe => 21,
            Domain::LambsauceDe => 22,
            Domain::RamenMailDe => 23,
            Domain::Ji5De => 24,
            Domain::Ji6De => 25,
            Domain::Ji7De => 26,
            Domain::SudernDe => 27,
            Domain::HihiLol => 28,
            Domain::KeinDate => 29,
            Domain::HolioDay => 30,
            Domain::CornHolioDay => 31,
            Domain::BungHolioDay => 32,
            Domain::StacysMom => 33,
            Domain::FileSavedOrg => 34,
            Domain::TerribleCoffeeOrg => 35,
            Domain::UnderseaGolfCom => 36,
            Domain::JailBreakEverythingCom => 37,
            Domain::Awesome47 => 38,
            Domain::ExpiredToasterOrg => 39,
            Domain::UndeadBankCom => 40,
        }
    }

    /// The length of a name together with three of its characters; enough to
    /// tell any two catalogued names apart.
    spec fn signature(text: Seq<char>) -> (nat, char, char, char) {
        (text.len(), text[0], text[2], text[6])
    }

    proof fn lemma_signatures_of_catalog()
        ensures
            Self::signature(Domain::TenMinMailDe.name()) == (12nat, '1', 'm', 'a'),
            Self::signature(Domain::TenMinutenMailXyz.name()) == (17nat, '1', 'm', 't'),
            Self::signature(Domain::ExistiertNet.name()) == (13nat, 'e', 'i', 'e'),
            Self::signature(Domain::FliegenderFish.name()) == (15nat, 'f', 'i', 'n'),
            Self::signature(Domain::JagaEmail.name()) == (10nat, 'j', 'g', 'm'),
            Self::signature(Domain::MdzEmail.name()) == (9nat, 'm', 'z', 'a'),
            Self::signature(Domain::MuellMailCom.name()) == (13nat, 'm', 'e', 'a'),
            Self::signature(Domain::MuelleMailCom.name()) == (14nat, 'm', 'e', 'm'),
            Self::signature(Domain::MuellMonster.name()) == (13nat, 'm', 'e', 'm'),
            Self::signature(Domain::MuellIcu.name()) == (9nat, 'm', 'e', 'i'),
            Self::signature(Domain::MuellIo.name()) == (8nat, 'm', 'e', 'i'),
            Self::signature(Domain::MuellXyz.name()) == (9nat, 'm', 'e', 'x'),
            Self::signature(Domain::MagSpamNet.name()) == (11nat, 'm', 'g', 'm'),
            Self::signature(Domain::FukaruCom.name()) == (10nat, 'f', 'k', '.'),
            Self::signature(Domain::OidaIcu.name()) == (8nat, 'o', 'd', 'c'),
            Self::signature(Domain::PapierkorbMe.name()) == (13nat, 'p', 'p', 'k'),
            Self::signature(Domain::SpamCare.name()) == (9nat, 's', 'a', 'a'),
            Self::signature(Domain::TonneTo.name()) == (8nat, 't', 'n', 't'),
            Self::signature(Domain::UltraFyi.name()) == (9nat, 'u', 't', 'f'),
            Self::signature(Domain::WegwerfEmailDe.name()) == (15nat, 'w', 'g', 'f'),
            Self::signature(Domain::DsgvoParty.name()) == (11nat, 'd', 'g', 'p'),
            Self::signature(Domain::KnickerbockerbanDe.name()) == (19nat, 'k', 'i', 'r'),
            Self::signature(Domain::LambsauceDe.name()) == (12nat, 'l', 'm', 'u'),
            Self::signature(Domain::RamenMailDe.name()) == (12nat, 'r', 'm', 'a'),
            Self::signature(Domain::Ji5De.name()) == (6nat, 'j', '5', Self::signature(Domain::Ji5De.name()).3),
            Self::signature(Domain::Ji6De.name()) == (6nat, 'j', '6', Self::signature(Domain::Ji6De.name()).3),
            Self::signature(Domain::Ji7De.name()) == (6nat, 'j', '7', Self::signature(Domain::Ji7De.name()).3),
            Self::signature(Domain::SudernDe.name()) == (9nat, 's', 'd', '.'),
            Self::signature(Domain::HihiLol.name()) == (8nat, 'h', 'h', 'o'),
            Self::signature(Domain::KeinDate.name()) == (9nat, 'k', 'i', 'a'),
            Self::signature(Domain::HolioDay.name()) == (9nat, 'h', 'l', 'd'),
            Self::signature(Domain::CornHolioDay.name()) == (14nat, 'c', 'r', 'o'),
            Self::signature(Domain::BungHolioDay.name()) == (14nat, 'b', 'n', 'o'),
            Self::signature(Domain::StacysMom.name()) == (10nat, 's', 'a', '.'),
            Self::signature(Domain::FileSavedOrg.name()) == (13nat, 'f', 'l', 'v'),
            Self::signature(Domain::TerribleCoffeeOrg.name()) == (18nat, 't', 'r', 'l'),
            Self::signature(Domain::UnderseaGolfCom.name()) == (16nat, 'u', 'd', 'e'),
            Self::signature(Domain::JailBreakEverythingCom.name()) == (23nat, 'j', 'i', 'e'),
            Self::signature(Domain::Awesome47.name()) == (13nat, 'a', 'e', 'e'),
            Self::signature(Domain::ExpiredToasterOrg.name()) == (18nat, 'e', 'p', 'd'),
            Self::signature(Domain::UndeadBankCom.name()) == (14nat, 'u', 'd', 'b'),
    {
        reveal_strlit("10minmail.de");
        reveal_strlit("10minutenmail.xyz");
        reveal_strlit("existiert.net");
        reveal_strlit("fliegender.fish");
        reveal_strlit("jaga.email");
        reveal_strlit("mdz.email");
        reveal_strlit("muellmail.com");
        reveal_strlit("muellemail.com");
        reveal_strlit("muell.monster");
        reveal_strlit("muell.icu");
        reveal_strlit("muell.io");
        reveal_strlit("muell.xyz");
        reveal_strlit("magspam.net");
        reveal_strlit("fukaru.com");
        reveal_strlit("oida.icu");
        reveal_strlit("papierkorb.me");
        reveal_strlit("spam.care");
        reveal_strlit("tonne.to");
        reveal_strlit("ultra.fyi");
        reveal_strlit("wegwerfemail.de");
        reveal_strlit("dsgvo.party");
        reveal_strlit("knickerbockerban.de");
        reveal_strlit("lambsauce.de");
        reveal_strlit("ramenmail.de");
        reveal_strlit("ji5.de");
        reveal_strlit("ji6.de");
        reveal_strlit("ji7.de");
        reveal_strlit("sudern.de");
        reveal_strlit("hihi.lol");
        reveal_strlit("kein.date");
        reveal_strlit("holio.day");
        reveal_strlit("corn.holio.day");
        reveal_strlit("bung.holio.day");
        reveal_strlit("stacys.mom");
        reveal_strlit("filesaved.org");
        reveal_strlit("terriblecoffee.org");
        reveal_strlit("underseagolf.com");
        reveal_strlit("jailbreakeverything.com");
        reveal_strlit("awesome47.com");
        reveal_strlit("expiredtoaster.org");
        reveal_strlit("undeadbank.com");
    }

    /// Every domain that is not custom stands in the catalog.
    pub proof fn lemma_catalog_complete(domain: Domain)
        requires
            !(domain is Custom),
        ensures
            Self::catalog().contains(domain),
            Self::is_catalog_name(domain.name()),
    {
        let i = choose|i: int| 0 <= i < Self::catalog().len() && Self::catalog()[i] == domain;
        assert(Self::catalog()[i].name() == domain.name());
    }

    /// Reading the name of a catalogued domain gives that domain back.
    pub proof fn lemma_catalog_round_trip(domain: Domain)
        requires
            !(domain is Custom),
        ensures
            Self::parse(domain.name()) == domain@,
    {
        Self::lemma_catalog_complete(domain);
    }

    /// Reading a text that is no catalogued name gives the custom domain of
    /// that text.
    pub proof fn lemma_custom_round_trip(text: Seq<char>)
        requires
            !Self::is_catalog_name(text),
        ensures
            Self::parse(text) == (DomainView { custom: true, name: text }),
    {
    }

    /// Reading the name of any domain gives that domain back, unless it is a
    /// custom domain that bears a catalogued name: that one is read as the
    /// catalogued domain.
    pub proof fn lemma_round_trip(domain: Domain)
        ensures
            Self::parse(domain.name()).name == domain.name(),
            !(domain is Custom) || !Self::is_catalog_name(domain.name()) ==> Self::parse(
                domain.name(),
            ) == domain@,
            domain is Custom && Self::is_catalog_name(domain.name()) ==> Self::parse(
                domain.name(),
            ) != domain@,
    {
        if !(domain is Custom) {
            Self::lemma_catalog_complete(domain);
        }
    }

    /// No two catalogued domains share a name, so a catalogued domain is known
    /// by its view.
    pub proof fn lemma_names_distinct(a: Domain, b: Domain)
        requires
            !(a is Custom),
            !(b is Custom),
            a.name() == b.name(),
        ensures
            a == b,
    {
        Self::lemma_signatures_of_catalog();
        assert(Self::signature(a.name()) == Self::signature(b.name()));
    }
}

impl Clone for Domain {
    fn clone(&self) -> (copy: Self)
        ensures
            copy@ == self@,
            !(self is Custom) ==> copy == *self,
    {
        match self {
            Domain::Custom(custom) => Domain::Custom(custom.clone()),

            Domain::TenMinMailDe => Domain::TenMinMailDe,
            Domain::TenMinutenMailXyz => Domain::TenMinutenMailXyz,
            Domain::ExistiertNet => Domain::ExistiertNet,
            Domain::FliegenderFish => Domain::FliegenderFish,
            Domain::JagaEmail => Domain::JagaEmail,
            Domain::MdzEmail => Domain::MdzEmail,
            Domain::MuellMailCom => Domain::MuellMailCom,
            Domain::MuelleMailCom => Domain::MuelleMailCom,
            Domain::MuellMonster => Domain::MuellMonster,
            Domain::MuellIcu => Domain::MuellIcu,
            Domain::MuellIo => Domain::MuellIo,
            Domain::MuellXyz => Domain::MuellXyz,
            Domain::MagSpamNet => Domain::MagSpamNet,
            Domain::FukaruCom => Domain::FukaruCom,
            Domain::OidaIcu => Domain::OidaIcu,
            Domain::PapierkorbMe => Domain::PapierkorbMe,
            Domain::SpamCare => Domain::SpamCare,
            Domain::TonneTo => Domain::TonneTo,
            Domain::UltraFyi => Domain::UltraFyi,
            Domain::WegwerfEmailDe => Domain::WegwerfEmailDe,
            Domain::DsgvoParty => Domain::DsgvoParty,
            Domain::KnickerbockerbanDe => Domain::KnickerbockerbanDe,
            Domain::LambsauceDe => Domain::LambsauceDe,
            Domain::RamenMailDe => Domain::RamenMailDe,
            Domain::Ji5De => Domain::Ji5De,
            Domain::Ji6De => Domain::Ji6De,
            Domain::Ji7De => Domain::Ji7De,
            Domain::SudernDe => Domain::SudernDe,
            Domain::HihiLol => Domain::HihiLol,
            Domain::KeinDate => Domain::KeinDate,
            Domain::HolioDay => Domain::HolioDay,
            Domain::CornHolioDay => Domain::CornHolioDay,
            Domain::BungHolioDay => Domain::BungHolioDay,
            Domain::StacysMom => Domain::StacysMom,
            Domain::FileSavedOrg => Domain::FileSavedOrg,
            Domain::TerribleCoffeeOrg => Domain::TerribleCoffeeOrg,
            Domain::UnderseaGolfCom => Domain::UnderseaGolfCom,
            Domain::JailBreakEverythingCom => Domain::JailBreakEverythingCom,
            Domain::Awesome47 => Domain::Awesome47,
            Domain::ExpiredToasterOrg => Domain::ExpiredToasterOrg,
            Domain::UndeadBankCom => Domain::UndeadBankCom,
        }
    }
}

impl PartialEq for Domain {
    fn eq(&self, other: &Self) -> (equal: bool)
    {
        match self {
            Domain::Custom(custom) => match other {
                Domain::Custom(other_custom) => *custom == *other_custom,
                _ => false,
            },
            _ => match other {
                Domain::Custom(_) => false,
                _ => {
                    proof {
                        if self.name() == other.name() {
                            Self::lemma_names_distinct(*self, *other);
                        }
                    }
                    self.ordinal() == other.ordinal()
                },
            },
        }
    }
}

impl Eq for Domain {}

impl PartialEqSpecImpl for Domain {
    open spec fn obeys_eq_spec() -> bool {
        true
    }

    open spec fn eq_spec(&self, other: &Self) -> bool {
        self@ == other@
    }
}

impl From<&str> for Domain {
    /// Reads a domain from its textual form. A catalogued name gives the
    /// catalogued domain; any other text gives a custom domain.
    fn from(value: &str) -> (domain: Domain)
        ensures
            domain@ == Domain::parse(value@),
    {
        let wanted = value.to_owned();
        let mut all = Domain::get_all_domains();
        let mut i: usize = 0;
        while i < all.len()
            invariant
                i <= all.len(),
                all@ == Domain::catalog(),
                wanted@ == value@,
                forall|j: int| 0 <= j < i ==> #[trigger] Domain::catalog()[j].name() != value@,
            decreases all.len() - i,
        {
            if all[i].to_string() == wanted {
                return all.swap_remove(i);
            }
            i += 1;
        }
        Domain::Custom(wanted)
    }
}

/// What `from` hands back is stated in its own contract, over views: the
/// text that a custom domain holds cannot be written down as a value here.
impl FromSpecImpl<&str> for Domain {
    open spec fn obeys_from_spec() -> bool {
        false
    }

    open spec fn from_spec(value: &str) -> Domain {
        arbitrary()
    }
}

} // verus!

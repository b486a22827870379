use vstd::prelude::*;

use crate::codec::{lemma_parse_all_texts, parse_all, parse_all_error, parse_pieces, TextValue};
use crate::error::MpdError;
use crate::patterns::{is_url, is_url_exec, is_urn, is_urn_exec};
use crate::text::{
    append_chars, chars_of, has_no, join, join_exec, lemma_split_join, split, split_exec,
    string_of, views,
};

verus! {

pub const XML_DECLARATION: &'static str = "<?xml version=\"1.0\" encoding=\"UTF-8\"?>";

pub const MPD_NAMESPACE: &'static str = "urn:mpeg:dash:schema:mpd:2011";

pub const XML_LINKING_LANGUAGE: &'static str = "http://www.w3.org/1999/xlink";

pub const MPD_SCHEMA_FILE: &'static str = "DASH-MPD.xsd";

pub const MPD_SCHEMA_INSTANCE: &'static str = "http://www.w3.org/2001/XMLSchema-instance";

pub const DASH_DVB_EXTENTION: &'static str = "urn:dvb:dash-extentions:2014-1";

pub const ROLE_SCHEME: &'static str = "urn:mpeg:dash:role:2011";

/// Whether the characters are those of `b`.
pub fn eq_text(a: &Vec<char>, b: &str) -> (r: bool)
    ensures
        r == (a@ == b@),
{
    let bc = chars_of(b);
    if a.len() != bc.len() {
        return false;
    }
    let mut i: usize = 0;
    while i < a.len()
        invariant
            i <= a.len() == bc.len(),
            bc@ == b@,
            forall|j: int| 0 <= j < i ==> a@[j] == bc@[j],
        decreases a.len() - i,
    {
        if a[i] != bc[i] {
            return false;
        }
        i = i + 1;
    }
    assert(a@ =~= bc@);
    true
}

// ---------------------------------------------------------------------------
// Period signalling
// ---------------------------------------------------------------------------

#[derive(Debug, Clone, PartialEq, Eq, Hash)]
pub enum PeriodSignalling {
    Continuity,
    Connectivity,
}

impl PeriodSignalling {
    pub open spec fn view(&self) -> Seq<char> {
        match self {
            PeriodSignalling::Continuity => "urn:mpeg:dash:period-continuity:2015"@,
            PeriodSignalling::Connectivity => "urn:mpeg:dash:period-connectivity:2015"@,
        }
    }

    /// The variant whose scheme is exactly `s`.
    pub fn from_str(s: &str) -> (r: Result<PeriodSignalling, MpdError>)
        ensures
            (s@ == "urn:mpeg:dash:period-continuity:2015"@ || s@
                == "urn:mpeg:dash:period-connectivity:2015"@) <==> r is Ok,
            r is Ok ==> r->Ok_0.view() == s@,
            r is Err ==> r matches Err(MpdError::UnmatchedPattern),
    {
        let cs = chars_of(s);
        if eq_text(&cs, "urn:mpeg:dash:period-continuity:2015") {
            Ok(PeriodSignalling::Continuity)
        } else if eq_text(&cs, "urn:mpeg:dash:period-connectivity:2015") {
            Ok(PeriodSignalling::Connectivity)
        } else {
            Err(MpdError::UnmatchedPattern)
        }
    }

    pub fn to_string(&self) -> (r: String)
        ensures
            r@ == self.view(),
    {
        match self {
            PeriodSignalling::Continuity => "urn:mpeg:dash:period-continuity:2015".to_owned(),
            PeriodSignalling::Connectivity => "urn:mpeg:dash:period-connectivity:2015".to_owned(),
        }
    }
}

// ---------------------------------------------------------------------------
// Template identifiers
// ---------------------------------------------------------------------------

/// The identifiers that a segment URL template may hold.
#[derive(Debug, Clone, PartialEq, Eq, Hash)]
pub enum Identifier {
    RepresentationID,
    Number,
    Bandwidth,
    Time,
    SubNumber,
}

impl Identifier {
    pub open spec fn view(&self) -> Seq<char> {
        match self {
            Identifier::RepresentationID => "$RepresentationID$"@,
            Identifier::Number => "$Number$"@,
            Identifier::Bandwidth => "$Bandwidth$"@,
            Identifier::Time => "$Time$"@,
            Identifier::SubNumber => "$SubNumber$"@,
        }
    }

    /// The identifier written exactly as `s`.
    pub fn from_str(s: &str) -> (r: Result<Identifier, MpdError>)
        ensures
            (s@ == "$RepresentationID$"@ || s@ == "$Number$"@ || s@ == "$Bandwidth$"@ || s@
                == "$Time$"@ || s@ == "$SubNumber$"@) <==> r is Ok,
            r is Ok ==> r->Ok_0.view() == s@,
            r is Err ==> r matches Err(MpdError::UnmatchedPattern),
    {
        let cs = chars_of(s);
        if eq_text(&cs, "$RepresentationID$") {
            Ok(Identifier::RepresentationID)
        } else if eq_text(&cs, "$Number$") {
            Ok(Identifier::Number)
        } else if eq_text(&cs, "$Bandwidth$") {
            Ok(Identifier::Bandwidth)
        } else if eq_text(&cs, "$Time$") {
            Ok(Identifier::Time)
        } else if eq_text(&cs, "$SubNumber$") {
            Ok(Identifier::SubNumber)
        } else {
            Err(MpdError::UnmatchedPattern)
        }
    }

    pub fn to_string(&self) -> (r: String)
        ensures
            r@ == self.view(),
    {
        match self {
            Identifier::RepresentationID => "$RepresentationID$".to_owned(),
            Identifier::Number => "$Number$".to_owned(),
            Identifier::Bandwidth => "$Bandwidth$".to_owned(),
            Identifier::Time => "$Time$".to_owned(),
            Identifier::SubNumber => "$SubNumber$".to_owned(),
        }
    }
}

// ---------------------------------------------------------------------------
// Profiles
// ---------------------------------------------------------------------------

/// A profile: one of the well-known profile URNs, or any other URN or URL.
#[derive(Debug, Clone, PartialEq, Eq, Hash)]
pub enum Profile {
    Full,
    IsoOnDemand,
    IsoLive,
    IsoMain,
    Mp2tMain,
    Mp2tSimple,
    IsoExtLive,
    IsoExtOnDemand,
    IsoCommon,
    IsoBroadcast,
    Cmaf,
    CmafExt,
    Other(String),
}

/// The well-known profile whose URN is `s`, if any.
pub open spec fn known_profile(s: Seq<char>) -> Option<Profile> {
    if s == "urn:mpeg:dash:profile:full:2011"@ {
        Some(Profile::Full)
    } else if s == "urn:mpeg:dash:profile:isoff-on-demand:2011"@ {
        Some(Profile::IsoOnDemand)
    } else if s == "urn:mpeg:dash:profile:isoff-live:2011"@ {
        Some(Profile::IsoLive)
    } else if s == "urn:mpeg:dash:profile:isoff-main:2011"@ {
        Some(Profile::IsoMain)
    } else if s == "urn:mpeg:dash:profile:mp2t-main:2011"@ {
        Some(Profile::Mp2tMain)
    } else if s == "urn:mpeg:dash:profile:mp2t-simple:2011"@ {
        Some(Profile::Mp2tSimple)
    } else if s == "urn:mpeg:dash:profile:isoff-ext-live:2014"@ {
        Some(Profile::IsoExtLive)
    } else if s == "urn:mpeg:dash:profile:isoff-ext-on-demand:2014"@ {
        Some(Profile::IsoExtOnDemand)
    } else if s == "urn:mpeg:dash:profile:isoff-common:2014"@ {
        Some(Profile::IsoCommon)
    } else if s == "urn:mpeg:dash:profile:isoff-broadcast:2015"@ {
        Some(Profile::IsoBroadcast)
    } else if s == "urn:mpeg:dash:profile:cmaf:2019"@ {
        Some(Profile::Cmaf)
    } else if s == "urn:mpeg:dash:profile:cmaf-extended:2019"@ {
        Some(Profile::CmafExt)
    } else {
        None
    }
}

pub open spec fn profile_syntax(s: Seq<char>) -> bool {
    is_urn(s) || is_url(s)
}

impl Profile {
    /// The profile's identifier text.
    pub open spec fn view(&self) -> Seq<char> {
        match self {
            Profile::Full => "urn:mpeg:dash:profile:full:2011"@,
            Profile::IsoOnDemand => "urn:mpeg:dash:profile:isoff-on-demand:2011"@,
            Profile::IsoLive => "urn:mpeg:dash:profile:isoff-live:2011"@,
            Profile::IsoMain => "urn:mpeg:dash:profile:isoff-main:2011"@,
            Profile::Mp2tMain => "urn:mpeg:dash:profile:mp2t-main:2011"@,
            Profile::Mp2tSimple => "urn:mpeg:dash:profile:mp2t-simple:2011"@,
            Profile::IsoExtLive => "urn:mpeg:dash:profile:isoff-ext-live:2014"@,
            Profile::IsoExtOnDemand => "urn:mpeg:dash:profile:isoff-ext-on-demand:2014"@,
            Profile::IsoCommon => "urn:mpeg:dash:profile:isoff-common:2014"@,
            Profile::IsoBroadcast => "urn:mpeg:dash:profile:isoff-broadcast:2015"@,
            Profile::Cmaf => "urn:mpeg:dash:profile:cmaf:2019"@,
            Profile::CmafExt => "urn:mpeg:dash:profile:cmaf-extended:2019"@,
            Profile::Other(s) => s@,
        }
    }

    /// Whether this is one of the well-known profiles.
    pub open spec fn is_known(&self) -> bool {
        !(self is Other)
    }

    /// A URN or URL; a well-known profile URN gives its own variant, any
    /// other value `Other`.
    pub fn from_str(s: &str) -> (r: Result<Profile, MpdError>)
        ensures
            profile_syntax(s@) <==> r is Ok,
            r is Ok ==> r->Ok_0.view() == s@,
            r is Ok ==> match known_profile(s@) {
                Some(p) => r->Ok_0 == p,
                None => r->Ok_0 is Other,
            },
            r is Err ==> r matches Err(MpdError::UnmatchedPattern),
    {
        let cs = chars_of(s);
        if !(is_urn_exec(&cs) || is_url_exec(&cs)) {
            return Err(MpdError::UnmatchedPattern);
        }
        let p = if eq_text(&cs, "urn:mpeg:dash:profile:full:2011") {
            Profile::Full
        } else if eq_text(&cs, "urn:mpeg:dash:profile:isoff-on-demand:2011") {
            Profile::IsoOnDemand
        } else if eq_text(&cs, "urn:mpeg:dash:profile:isoff-live:2011") {
            Profile::IsoLive
        } else if eq_text(&cs, "urn:mpeg:dash:profile:isoff-main:2011") {
            Profile::IsoMain
        } else if eq_text(&cs, "urn:mpeg:dash:profile:mp2t-main:2011") {
            Profile::Mp2tMain
        } else if eq_text(&cs, "urn:mpeg:dash:profile:mp2t-simple:2011") {
            Profile::Mp2tSimple
        } else if eq_text(&cs, "urn:mpeg:dash:profile:isoff-ext-live:2014") {
            Profile::IsoExtLive
        } else if eq_text(&cs, "urn:mpeg:dash:profile:isoff-ext-on-demand:2014") {
            Profile::IsoExtOnDemand
        } else if eq_text(&cs, "urn:mpeg:dash:profile:isoff-common:2014") {
            Profile::IsoCommon
        } else if eq_text(&cs, "urn:mpeg:dash:profile:isoff-broadcast:2015") {
            Profile::IsoBroadcast
        } else if eq_text(&cs, "urn:mpeg:dash:profile:cmaf:2019") {
            Profile::Cmaf
        } else if eq_text(&cs, "urn:mpeg:dash:profile:cmaf-extended:2019") {
            Profile::CmafExt
        } else {
            Profile::Other(s.to_owned())
        };
        Ok(p)
    }

    pub fn to_string(&self) -> (r: String)
        ensures
            r@ == self.view(),
    {
        match self {
            Profile::Full => "urn:mpeg:dash:profile:full:2011".to_owned(),
            Profile::IsoOnDemand => "urn:mpeg:dash:profile:isoff-on-demand:2011".to_owned(),
            Profile::IsoLive => "urn:mpeg:dash:profile:isoff-live:2011".to_owned(),
            Profile::IsoMain => "urn:mpeg:dash:profile:isoff-main:2011".to_owned(),
            Profile::Mp2tMain => "urn:mpeg:dash:profile:mp2t-main:2011".to_owned(),
            Profile::Mp2tSimple => "urn:mpeg:dash:profile:mp2t-simple:2011".to_owned(),
            Profile::IsoExtLive => "urn:mpeg:dash:profile:isoff-ext-live:2014".to_owned(),
            Profile::IsoExtOnDemand => "urn:mpeg:dash:profile:isoff-ext-on-demand:2014".to_owned(),
            Profile::IsoCommon => "urn:mpeg:dash:profile:isoff-common:2014".to_owned(),
            Profile::IsoBroadcast => "urn:mpeg:dash:profile:isoff-broadcast:2015".to_owned(),
            Profile::Cmaf => "urn:mpeg:dash:profile:cmaf:2019".to_owned(),
            Profile::CmafExt => "urn:mpeg:dash:profile:cmaf-extended:2019".to_owned(),
            Profile::Other(s) => s.clone(),
        }
    }
}

impl TextValue for Profile {
    type Model = Seq<char>;

    open spec fn model(&self) -> Seq<char> {
        self.view()
    }

    open spec fn wf_model(m: Seq<char>) -> bool {
        profile_syntax(m)
    }

    open spec fn text_of(m: Seq<char>) -> Seq<char> {
        m
    }

    open spec fn parse_of(s: Seq<char>) -> Option<Seq<char>> {
        if profile_syntax(s) {
            Some(s)
        } else {
            None
        }
    }

    open spec fn parse_error(s: Seq<char>) -> MpdError {
        MpdError::UnmatchedPattern
    }

    fn parse_text(s: &str) -> (r: Result<Profile, MpdError>) {
        Profile::from_str(s)
    }

    fn format_text(&self) -> (r: String) {
        self.to_string()
    }

    proof fn lemma_round_trip(m: Seq<char>) {
    }
}

// ---------------------------------------------------------------------------
// List of profiles
// ---------------------------------------------------------------------------

pub open spec fn profiles_parse(s: Seq<char>) -> Option<Seq<Seq<char>>> {
    parse_all::<Profile>(split(s, ','))
}

pub open spec fn profiles_wf(m: Seq<Seq<char>>) -> bool {
    m.len() >= 1 && forall|i: int|
        0 <= i < m.len() ==> profile_syntax(#[trigger] m[i]) && has_no(m[i], ',')
}

/// A comma-separated list of profiles.
#[derive(Debug, Default, Clone, PartialEq, Eq, Hash)]
pub struct ListOfProfiles {
    value: Vec<Profile>,
}

impl ListOfProfiles {
    /// The profiles' identifier texts.
    pub closed spec fn view(&self) -> Seq<Seq<char>> {
        self.value@.map_values(|p: Profile| p.view())
    }

    pub fn from(value: Vec<Profile>) -> (r: ListOfProfiles)
        ensures
            r.view() == value@.map_values(|p: Profile| p.view()),
    {
        ListOfProfiles { value }
    }

    pub fn profiles(&self) -> (r: &Vec<Profile>)
        ensures
            r@.map_values(|p: Profile| p.view()) == self.view(),
    {
        &self.value
    }

    pub fn len(&self) -> (r: usize)
        ensures
            r == self.view().len(),
    {
        self.value.len()
    }

    pub fn is_empty(&self) -> (r: bool)
        ensures
            r == (self.view().len() == 0),
    {
        self.value.len() == 0
    }

    /// Splits on commas and reads each piece as a profile; fails on the
    /// first piece that is not one.
    pub fn from_str(s: &str) -> (r: Result<ListOfProfiles, MpdError>)
        ensures
            match profiles_parse(s@) {
                Some(m) => r is Ok && r->Ok_0.view() == m,
                None => r is Err && r->Err_0 == parse_all_error::<Profile>(split(s@, ',')),
            },
    {
        let cs = chars_of(s);
        let parts = split_exec(&cs, ',');
        match parse_pieces::<Profile>(&parts) {
            Ok(value) => Ok(ListOfProfiles { value }),
            Err(e) => Err(e),
        }
    }

    /// The profiles joined with commas.
    pub fn to_string(&self) -> (r: String)
        ensures
            r@ == join(self.view(), ','),
    {
        let mut pieces: Vec<Vec<char>> = Vec::new();
        let mut i: usize = 0;
        while i < self.value.len()
            invariant
                i <= self.value.len(),
                views(pieces@) == self.view().subrange(0, i as int),
            decreases self.value.len() - i,
        {
            let ghost before = pieces@;
            let t = self.value[i].to_string();
            let tc = chars_of(t.as_str());
            pieces.push(tc);
            assert(views(pieces@) =~= views(before).push(tc@));
            assert(self.view().subrange(0, i + 1) =~= self.view().subrange(0, i as int).push(
                self.value@[i as int].view(),
            ));
            i = i + 1;
        }
        assert(self.view().subrange(0, self.value.len() as int) =~= self.view());
        string_of(&join_exec(&pieces, ','))
    }
}

pub proof fn lemma_profiles_round_trip(m: Seq<Seq<char>>)
    requires
        profiles_wf(m),
    ensures
        profiles_parse(join(m, ',')) == Some(m),
{
    assert forall|i: int| 0 <= i < m.len() implies has_no(#[trigger] m[i], ',') by {
    }
    lemma_split_join(m, ',');
    assert forall|i: int| 0 <= i < m.len() implies Profile::wf_model(#[trigger] m[i]) by {
    }
    lemma_parse_all_texts::<Profile>(m);
    assert(crate::codec::texts_of::<Profile>(m) =~= m);
}

} // verus!

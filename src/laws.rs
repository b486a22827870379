use vstd::prelude::*;

use crate::codec::TextValue;
use crate::codecs::{codecs_parse, codecs_text, fancy_parse, fancy_text};
use crate::definition::profiles_parse;
use crate::text::{join, lemma_join_split, lemma_split_len, split};
use crate::element::mpd::MPDBuilder;
use crate::element::{MetricsBuilder, ProducerReferenceTimeBuilder};
use crate::enums::{PresentationType, ProducerReferenceTimeType};

verus! {

/// Round trip: reading the canonical text of a well-formed value gives the
/// value back.
pub proof fn law_round_trip<T: TextValue>(v: T)
    requires
        T::wf_model(v.model()),
    ensures
        T::parse_of(T::text_of(v.model())) == Some(v.model()),
{
    T::lemma_round_trip(v.model());
}

/// Canonical idempotence: formatting what was read from a formatted value
/// gives the same text as formatting it once.
pub proof fn law_format_idempotent<T: TextValue>(v: T)
    requires
        T::wf_model(v.model()),
    ensures
        T::parse_of(T::text_of(v.model())) is Some,
        T::text_of(T::parse_of(T::text_of(v.model()))->0) == T::text_of(v.model()),
{
    T::lemma_round_trip(v.model());
}

/// The application scheme of a producer reference time is required when
/// its type is `application` and forbidden otherwise: a builder that breaks
/// either direction does not build, and one that keeps both builds once its
/// other required fields are set.
pub proof fn law_producer_reference_time_conditional(b: ProducerReferenceTimeBuilder)
    ensures
        b.type_ == Some(ProducerReferenceTimeType::Application) && b.application_scheme is None
            ==> !b.meets_rules(),
        b.type_ != Some(ProducerReferenceTimeType::Application) && b.application_scheme is Some
            ==> !b.meets_rules(),
        b.id is Some && b.wall_clock_time is Some && b.presentation_time is Some && (b.type_
            == Some(ProducerReferenceTimeType::Application) <==> b.application_scheme is Some)
            ==> b.meets_rules(),
{
}

/// Metrics without a reporting descriptor do not build, whatever the other
/// fields hold.
pub proof fn law_metrics_need_reporting(b: MetricsBuilder)
    ensures
        (b.reporting is None || (b.reporting matches Some(v) && v@.len() == 0)) ==> !b.meets_rules(),
{
}

/// A dynamic presentation builds only with both its availability start time
/// and its publish time.
pub proof fn law_dynamic_presentation_times(b: MPDBuilder)
    ensures
        b.type_ == Some(PresentationType::Dynamic) && (b.availability_start_time is None
            || b.publish_time is None) ==> !b.meets_rules(),
        (b.profiles matches Some(p) && p.view().len() > 0) && b.type_ == Some(
            PresentationType::Dynamic,
        ) && b.availability_start_time is Some && b.publish_time is Some ==> b.meets_rules(),
{
}

/// A codecs text that reads is written back exactly as it was, whitespace
/// after commas included.
pub proof fn law_codecs_text_kept(s: Seq<char>)
    requires
        codecs_parse(s) is Some,
    ensures
        codecs_text(codecs_parse(s)->0) == s,
{
    lemma_join_split(s, ',');
    if (codecs_parse(s)->0).0 {
        lemma_fancy_text_kept(s);
    }
}

proof fn lemma_fancy_text_kept(s: Seq<char>)
    requires
        fancy_parse(s) is Some,
    ensures
        fancy_text(fancy_parse(s)->0) == s,
{
    let q = split(s, '\'');
    lemma_join_split(s, '\'');
    lemma_join_split(s, ',');
    if q.len() == 3 {
        lemma_join_split(q[2], ',');
        let q2 = q.drop_last();
        assert(q2.drop_last() =~= seq![q[0]]);
        assert(join(seq![q[0]], '\'') == q[0]);
        assert(q2.last() == q[1]);
        assert(join(q2, '\'') == join(q2.drop_last(), '\'') + seq!['\''] + q2.last());
        assert(join(q, '\'') == join(q.drop_last(), '\'') + seq!['\''] + q[2]);
        assert(join(q.drop_last(), '\'') == q[0] + seq!['\''] + q[1]);
    }
}

/// A list of profiles that reads is written back exactly as it was.
pub proof fn law_profiles_text_kept(s: Seq<char>)
    requires
        profiles_parse(s) is Some,
    ensures
        join(profiles_parse(s)->0, ',') == s,
{
    lemma_join_split(s, ',');
    lemma_profiles_parse_texts(split(s, ','));
}

proof fn lemma_profiles_parse_texts(pieces: Seq<Seq<char>>)
    requires
        crate::codec::parse_all::<crate::definition::Profile>(pieces) is Some,
    ensures
        crate::codec::parse_all::<crate::definition::Profile>(pieces)->0 == pieces,
    decreases pieces.len(),
{
    if pieces.len() > 0 {
        lemma_profiles_parse_texts(pieces.drop_last());
        assert(pieces.drop_last().push(pieces.last()) =~= pieces);
    } else {
        assert(pieces =~= Seq::<Seq<char>>::empty());
    }
}

} // verus!

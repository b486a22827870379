use vstd::prelude::*;

pub mod codec;
pub mod codecs;
pub mod datetime;
pub mod definition;
pub mod duration;
pub mod element;
pub mod enums;
pub mod error;
pub mod integer;
pub mod laws;
pub mod lists;
pub mod patterns;
pub mod ratio;
pub mod text;
pub mod text_values;
pub mod types;

pub use codec::{TextValue};
pub use codecs::{Codecs, FancyList, SimpList};
pub use datetime::{XsDateTime};
pub use definition::{
    DASH_DVB_EXTENTION, Identifier, ListOfProfiles, MPD_NAMESPACE, MPD_SCHEMA_FILE,
    MPD_SCHEMA_INSTANCE, PeriodSignalling, Profile, ROLE_SCHEME, XML_DECLARATION,
    XML_LINKING_LANGUAGE,
};
pub use duration::{XsDuration};
pub use element::{
    NeedValidater, BaseURL, BaseURLBuilder, ContentComponent, ContentComponentBuilder,
    ContentPopularityRate, ContentPopularityRateBuilder, ContentProtection,
    ContentProtectionBuilder, Descriptor, DescriptorBuilder, Event, EventBuilder, EventStream,
    EventStreamBuilder, ExtendedBandwidth, ExtendedBandwidthBuilder, FailoverContent,
    FailoverContentBuilder, Fcs, FcsBuilder, GroupLavel, InitializationSet,
    InitializationSetBuilder, Label, LabelBuilder, Latency, LatencyBuilder, LeapSecondInformation,
    LeapSecondInformationBuilder, Metrics, MetricsBuilder, MetricsRange, MetricsRangeBuilder,
    ModelPair, ModelPairBuilder, OperatingBandwidth, OperatingBandwidthBuilder, OperatingQuality,
    OperatingQualityBuilder, PatchLocation, PatchLocationBuilder, PlaybackRate,
    PlaybackRateBuilder, PopularityRate, PopularityRateBuilder, Preselection, PreselectionBuilder,
    ProducerReferenceTime, ProducerReferenceTimeBuilder, ProgramInformation,
    ProgramInformationBuilder, RandomAccess, RandomAccessBuilder, Resync, ResyncBuilder,
    SegmentUrl, SegmentUrlBuilder, ServiceDescription, ServiceDescriptionBuilder, Subset,
    SubsetBuilder, Switching, SwitchingBuilder, UIntVWithID, UIntVWithIDBuilder, Url, UrlBuilder,
};
pub use element::adapt::{AdaptationSet, AdaptationSetBuilder};
pub use element::mpd::{MPD, MPDBuilder};
pub use element::period::{Period, PeriodBuilder};
pub use element::repr::{
    Representation, RepresentationBuilder, SubRepresentation, SubRepresentationBuilder,
};
pub use element::segment::{
    Segment, SegmentBase, SegmentBaseBuilder, SegmentBuilder, SegmentList, SegmentListBuilder,
    SegmentTemplate, SegmentTemplateBuilder, SegmentTimeline, SegmentTimelineBuilder,
};
pub use enums::{
    BandwidthMediaType, ContentEncoding, ContentType, PreselectionOrderType, PresentationType,
    ProducerReferenceTimeType, QualityMediaType, RandomAccessType, Source, SwitchingType,
    VideoScan, XLinkActure,
};
pub use error::{MpdError};
pub use integer::{XsInteger};
pub use lists::{
    AudioSamplingRate, CommaSeparatedList, ListOfFourCC, StringVector, UIntVector,
    WhitespaceSeparatedList,
};
pub use ratio::{FrameRate, Ratio};
pub use types::{
    FourCC, NoWhitespace, SingleByteRange, StreamAccessPoint, Tag, XsAnyURI, XsDouble, XsId,
    XsLanguage,
};

verus! {

} // verus!

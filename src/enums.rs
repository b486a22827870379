use vstd::prelude::*;

verus! {

/// xlink:actuate
#[derive(Debug, Default, Clone, Copy, PartialEq, Eq, Hash)]
pub enum XLinkActure {
    OnLoad,
    #[default]
    OnRequest,
}

/// RFC 6838 top-level content type
#[derive(Debug, Default, Clone, Copy, PartialEq, Eq, Hash)]
pub enum ContentType {
    Text,
    Image,
    Audio,
    #[default]
    Video,
    Application,
    Font,
}

/// Video scan type
#[derive(Debug, Default, Clone, Copy, PartialEq, Eq, Hash)]
pub enum VideoScan {
    Progressive,
    InterLaced,
    #[default]
    Unknown,
}

/// Event encoding
#[derive(Debug, Default, Clone, Copy, PartialEq, Eq, Hash)]
pub enum ContentEncoding {
    #[default]
    Base64,
}

/// Switching type
#[derive(Debug, Default, Clone, Copy, PartialEq, Eq, Hash)]
pub enum SwitchingType {
    #[default]
    Media,
    Bitstream,
}

/// Random access type
#[derive(Debug, Default, Clone, Copy, PartialEq, Eq, Hash)]
pub enum RandomAccessType {
    #[default]
    Closed,
    Open,
    Gradual,
}

/// Producer reference time type
#[derive(Debug, Default, Clone, Copy, PartialEq, Eq, Hash)]
pub enum ProducerReferenceTimeType {
    #[default]
    Encoder,
    Captured,
    Application,
}

/// Rating source
#[derive(Debug, Default, Clone, Copy, PartialEq, Eq, Hash)]
pub enum Source {
    #[default]
    Content,
    Statistics,
    Other,
}

/// Media type to which operating quality parameters apply
#[derive(Debug, Default, Clone, Copy, PartialEq, Eq, Hash)]
pub enum QualityMediaType {
    Video,
    Audio,
    #[default]
    Any,
}

/// Media type to which operating bandwidth parameters apply
#[derive(Debug, Default, Clone, Copy, PartialEq, Eq, Hash)]
pub enum BandwidthMediaType {
    Video,
    Audio,
    Any,
    #[default]
    All,
}

/// Preselection order type
#[derive(Debug, Default, Clone, Copy, PartialEq, Eq, Hash)]
pub enum PreselectionOrderType {
    #[default]
    Undefined,
    TimeOrdered,
    FullyOrdered,
}

/// Presentation type
#[derive(Debug, Default, Clone, Copy, PartialEq, Eq, Hash)]
pub enum PresentationType {
    #[default]
    Static,
    Dynamic,
}

} // verus!

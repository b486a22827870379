use mpdgen::{
    AudioSamplingRate, Codecs, FancyList, FourCC, FrameRate, ListOfFourCC, ListOfProfiles,
    NoWhitespace, Profile, Ratio, SimpList, SingleByteRange, StringVector, UIntVector,
    XsDateTime, XsDuration, XsId, XsInteger, XsLanguage,
};

#[test]
fn test_types_xs_integer_valid() {
    assert!(XsInteger::from_str("122").is_ok());
    assert!(XsInteger::from_str("00122").is_ok());
    assert!(XsInteger::from_str("0").is_ok());
    assert!(XsInteger::from_str("-3").is_ok());
    assert!(XsInteger::from_str("+3").is_ok());
}

#[test]
fn test_types_xs_integer_invalid() {
    assert!(XsInteger::from_str("3.").is_err());
    assert!(XsInteger::from_str("3.0").is_err());
    assert!(XsInteger::from_str("").is_err());
}

#[test]
fn test_types_xs_id_valid() {
    assert!(XsId::from_str("myElement").is_ok());
    assert!(XsId::from_str("_my.Element").is_ok());
    assert!(XsId::from_str("my-Element").is_ok());

    // xs:token
    assert_eq!(
        XsId::from_str("  _my.Element").unwrap().to_string(),
        "_my.Element".to_string()
    );
}

#[test]
fn test_types_xs_id_invalid() {
    assert!(XsId::from_str("pre:myElement").is_err());
    assert!(XsId::from_str("-myelement").is_err());
    assert!(XsId::from_str("").is_err());
}

#[test]
fn test_types_xs_lang_valid() {
    assert!(XsLanguage::from_str("en").is_ok());
    assert!(XsLanguage::from_str("en-GB").is_ok());
    assert!(XsLanguage::from_str("ja").is_ok());
    assert!(XsLanguage::from_str("i-navajo").is_ok());
    assert!(XsLanguage::from_str("x-Newspeak").is_ok());
    assert!(XsLanguage::from_str("any-value-with-short-partsen").is_ok());
}

#[test]
fn test_types_xs_lang_invalid() {
    assert!(XsLanguage::from_str("longerThan8").is_err());
    assert!(XsLanguage::from_str("").is_err());
}

#[test]
fn test_types_xs_datetime_valid() {
    assert!(XsDateTime::from_str("2004-04-12T13:20:00").is_ok());
    assert!(XsDateTime::from_str("2004-04-12T13:20:15.5").is_ok());
    assert!(XsDateTime::from_str("2004-04-12T13:20:00-05:00").is_ok());
    assert!(XsDateTime::from_str("2004-04-12T13:20:00Z").is_ok());
}

#[test]
fn test_types_xs_datetime_invalid() {
    assert!(XsDateTime::from_str("2004-04-12T13:00").is_err());
    assert!(XsDateTime::from_str("2004-04-1213:20:00").is_err());
    assert!(XsDateTime::from_str("99-04-12T13:00").is_err());
    assert!(XsDateTime::from_str("2004-04-12").is_err());
    assert!(XsDateTime::from_str("").is_err());
}

#[test]
fn test_types_xs_datetime_parse() {
    let datetime = XsDateTime::from_str("2004-04-12T13:20:00-05:00").unwrap();
    assert_eq!(&datetime.to_string(), "2004-04-12T18:20:00Z");
}

#[test]
fn test_types_xs_duration_valid() {
    assert!(XsDuration::from_str("P2Y6M5DT12H35M30S").is_ok());
    assert!(XsDuration::from_str("P1DT2H").is_ok());
    assert!(XsDuration::from_str("P20M").is_ok());
    assert!(XsDuration::from_str("PT20M").is_ok());
    assert!(XsDuration::from_str("P0Y20M0D").is_ok());
    assert!(XsDuration::from_str("P0Y").is_ok());
    assert!(XsDuration::from_str("-P60D").is_ok());
    assert!(XsDuration::from_str("PT1M30.5S").is_ok());
}

#[test]
fn test_types_xs_duration_invalid() {
    assert!(XsDuration::from_str("P-20M").is_err());
    assert!(XsDuration::from_str("P20MT").is_err());
    assert!(XsDuration::from_str("P1YM5D").is_err());
    assert!(XsDuration::from_str("P15.5Y").is_err());
    assert!(XsDuration::from_str("P1D2H").is_err());
    assert!(XsDuration::from_str("1Y2M").is_err());
    assert!(XsDuration::from_str("P2M1Y").is_err());
    assert!(XsDuration::from_str("P").is_err());
    assert!(XsDuration::from_str("PT15.S").is_err());
    assert!(XsDuration::from_str("").is_err());
}

#[test]
fn test_types_xs_duration_parse() {
    let duration = XsDuration::from_str("P2Y6M5DT12H35M30S").unwrap();
    assert_eq!(&duration.to_string(), "PT21972H35M30S");

    let duration = XsDuration::from_str("P20M").unwrap();
    assert_eq!(&duration.to_string(), "PT14400H");

    let duration = XsDuration::from_str("PT20M").unwrap();
    assert_eq!(&duration.to_string(), "PT20M");

    let duration = XsDuration::from_str("PT1M30.5S").unwrap();
    assert_eq!(&duration.to_string(), "PT1M30.5S");

    let duration = XsDuration::from_str("-P2DT1M30.123456789S").unwrap();
    assert_eq!(&duration.to_string(), "-PT48H1M30.123456789S");
}

#[test]
fn test_types_fourcc_valid() {
    assert!(FourCC::from_str("MPEG").is_ok());
}

#[test]
fn test_types_fourcc_invalid() {
    assert!(FourCC::from_str("MPEG2").is_err());
    assert!(FourCC::from_str(" mpeg").is_err());
    assert!(FourCC::from_str("a").is_err());
}

#[test]
fn test_types_ratio_valid() {
    assert!(Ratio::from_str("16:9").is_ok());
    assert!(Ratio::from_str("1920:1080").is_ok());
    assert!(Ratio::from_str("0:1").is_ok());
    assert!(Ratio::from_str("0:0").is_ok());
}

#[test]
fn test_types_ratio_invalid() {
    assert!(Ratio::from_str("16:").is_err());
    assert!(Ratio::from_str(":9").is_err());
    assert!(Ratio::from_str(":").is_err());
    assert!(Ratio::from_str("").is_err());
}

#[test]
fn test_types_ratio_parse() {
    let input = "16:9";
    let ratio = Ratio::from_str(&input).unwrap();
    assert_eq!(&ratio.to_string(), input);

    let input = "0:0";
    let ratio = Ratio::from_str(&input).unwrap();
    assert_eq!(&ratio.to_string(), input);
}

#[test]
fn test_types_framerate_valid() {
    assert!(FrameRate::from_str("30/1").is_ok());
    assert!(FrameRate::from_str("30").is_ok());
    assert!(FrameRate::from_str("30000/1001").is_ok());
    assert!(FrameRate::from_str("0/1").is_ok());
}

#[test]
fn test_types_framerate_invalid() {
    assert!(FrameRate::from_str("30/0").is_err());
    assert!(FrameRate::from_str("29.97/1.0").is_err());
    assert!(FrameRate::from_str("30/").is_err());
    assert!(FrameRate::from_str("/1").is_err());
    assert!(FrameRate::from_str("/").is_err());
    assert!(FrameRate::from_str("").is_err());
}

#[test]
fn test_types_framerate_parse() {
    let input = "30/1";
    let framerate = FrameRate::from_str(&input).unwrap();
    assert_eq!(&framerate.to_string(), input);

    let input = "60";
    let framerate = FrameRate::from_str(&input).unwrap();
    assert_eq!(&framerate.to_string(), "60/1");
}

#[test]
fn test_types_no_whitespace_valid() {
    assert!(NoWhitespace::from_str("HelloWorld").is_ok());
    assert!(NoWhitespace::from_str("1234567890!?/\\@#_,.%$\'\"").is_ok());
}

#[test]
fn test_types_no_whitespace_invalid() {
    assert!(NoWhitespace::from_str("Hello World").is_err());
    assert!(NoWhitespace::from_str("Hello\nWorld").is_err());
    assert!(NoWhitespace::from_str("Hello\r\nWorld").is_err());
    assert!(NoWhitespace::from_str("Hello\tWorld").is_err());
}

#[test]
fn test_types_no_whitespace_parse() {
    let input = "1234567890!?/\\@#_,.%$\'\"";
    let no_whitespace = NoWhitespace::from_str("1234567890!?/\\@#_,.%$\'\"").unwrap();
    assert_eq!(&no_whitespace.to_string(), input);
}

#[test]
fn test_types_single_byte_range_valid() {
    assert!(SingleByteRange::from_str("0-499").is_ok());
    assert!(SingleByteRange::from_str("500-999").is_ok());
    assert!(SingleByteRange::from_str("0-").is_ok());
}

#[test]
fn test_types_single_byte_range_invalid() {
    assert!(SingleByteRange::from_str("-499").is_err());
    assert!(SingleByteRange::from_str("500-499").is_err());
    assert!(SingleByteRange::from_str("0-499,500-999").is_err());
    assert!(SingleByteRange::from_str("0-499,-1").is_err());
    assert!(SingleByteRange::from_str("-").is_err());
    assert!(SingleByteRange::from_str("").is_err());
}

#[test]
fn test_types_single_byte_range_parse() {
    let input = "0-499";
    let range = SingleByteRange::from_str(&input).unwrap();
    assert_eq!(&range.to_string(), input);

    let input = "500-";
    let range = SingleByteRange::from_str(&input).unwrap();
    assert_eq!(&range.to_string(), input);
}

#[test]
fn test_types_fancy_list_valid() {
    assert!(FancyList::from_str("UTF-8'en'avc1.42E01E,mp4a.40.2").is_ok());
    assert!(FancyList::from_str("UTF-8'en'avc1.42E01E, mp4a.40.2").is_ok());
    assert!(FancyList::from_str("avc1.42E01E").is_ok());
    assert!(FancyList::from_str("avc1").is_ok());
}

#[test]
fn test_types_fancy_list_invalid() {
    assert!(FancyList::from_str("UTF-8'en'").is_err());
    assert!(FancyList::from_str("'en'avc1.42E01E,mp4a.40.2").is_err());
    assert!(FancyList::from_str("avc1.42E01E;mp4a.40.2").is_err());
    assert!(FancyList::from_str("avc1.42E01E,").is_err());
    assert!(FancyList::from_str("UTF-8\"en\"avc1.42E01E").is_err());
    assert!(FancyList::from_str("").is_err());
}

#[test]
fn test_types_fancy_list_parse() {
    let input = "UTF-8'en'avc1.42E01E,mp4a.40.2";
    let fancy_list = FancyList::from_str(&input).unwrap();
    assert_eq!(&fancy_list.to_string(), input);

    let input = "avc1.42E01E,mp4a.40.2";
    let fancy_list = FancyList::from_str(&input).unwrap();
    assert_eq!(&fancy_list.to_string(), input);
}

#[test]
fn test_types_simp_list_valid() {
    assert!(SimpList::from_str("avc1").is_ok());
    assert!(SimpList::from_str("avc1,mp4a").is_ok());
    assert!(SimpList::from_str("avc1, mp4a").is_ok());
}

#[test]
fn test_types_simp_list_invalid() {
    assert!(SimpList::from_str("avc1.42E01E").is_err());
    assert!(SimpList::from_str("avc1;mp4a").is_err());
    assert!(SimpList::from_str("avc1,").is_err());
    assert!(SimpList::from_str("").is_err());
}

#[test]
fn test_types_simp_list_parse() {
    let input = "avc1";
    let simp_list = SimpList::from_str(&input).unwrap();
    assert_eq!(&simp_list.to_string(), input);

    let input = "avc1,mp4a";
    let simp_list = SimpList::from_str(&input).unwrap();
    assert_eq!(&simp_list.to_string(), input);
}

#[test]
fn test_types_codecs_parse() {
    let input = "UTF-8'en'avc1.42E01E,mp4a.40.2";
    let codecs = Codecs::from_str(&input).unwrap();
    assert_eq!(codecs, Codecs::Fancy(FancyList::from_str(&input).unwrap()));
    assert_eq!(&codecs.to_string(), input);

    let input = "avc1.42E01E,mp4a";
    let codecs = Codecs::from_str(&input).unwrap();
    assert_eq!(codecs, Codecs::Fancy(FancyList::from_str(&input).unwrap()));
    assert_eq!(&codecs.to_string(), input);

    let input = "avc1,mp4a";
    let codecs = Codecs::from_str(&input).unwrap();
    assert_eq!(codecs, Codecs::Simp(SimpList::from_str(&input).unwrap()));
    assert_eq!(&codecs.to_string(), input);
}

#[test]
fn test_types_list_of_profiles_valid() {
    assert!(ListOfProfiles::from_str("urn:example:resource").is_ok());
    assert!(ListOfProfiles::from_str("https://example.com").is_ok());
    assert!(ListOfProfiles::from_str("urn:example:resource,https://example.com").is_ok());
    assert!(ListOfProfiles::from_str(
        "urn:example:resource,urn:another:resource,https://example.org"
    )
    .is_ok());
    assert!(ListOfProfiles::from_str(
        "urn:example:namespace,https://example.com,http://example.org"
    )
    .is_ok());
}

#[test]
fn test_types_list_of_profiles_invalid() {
    assert!(ListOfProfiles::from_str("urn::invalid:urn").is_err());
    assert!(ListOfProfiles::from_str("urn:missing:section:,http://example.com").is_err());
    assert!(ListOfProfiles::from_str("urn:example:resource,\nhttps://example.com").is_err());
    assert!(ListOfProfiles::from_str("https:/invalid-url").is_err());
    assert!(ListOfProfiles::from_str("ftp://not-supported-url").is_err());
    assert!(ListOfProfiles::from_str("urn:valid, ,https://valid-url.com").is_err());
    assert!(ListOfProfiles::from_str("urn:valid,,https://valid-url.com").is_err());
    assert!(ListOfProfiles::from_str(",").is_err());
    assert!(ListOfProfiles::from_str("").is_err());
}

#[test]
fn test_types_list_of_profiles_parse() {
    let profiles = ListOfProfiles::from_str(
        "urn:example:namespace,https://example.com,http://example.org",
    )
    .unwrap();

    assert_eq!(
        *profiles.profiles(),
        [
            Profile::from_str("urn:example:namespace").unwrap(),
            Profile::from_str("https://example.com").unwrap(),
            Profile::from_str("http://example.org").unwrap(),
        ]
    );

    assert_eq!(
        &profiles.to_string(),
        "urn:example:namespace,https://example.com,http://example.org"
    );
}

#[test]
fn test_types_whitespace_separated_list_valid() {
    assert!(UIntVector::from_str("1 2 3 4 5").is_ok());
    assert!(StringVector::from_str("a b c d e").is_ok());
    assert!(ListOfFourCC::from_str("MPEG JPEG H264").is_ok());
    assert!(AudioSamplingRate::from_str("1 2").is_ok());
    assert!(UIntVector::from_str("").is_ok());
}

#[test]
fn test_types_whitespace_separated_list_invalid() {
    assert!(UIntVector::from_str("a b c").is_err());
    assert!(ListOfFourCC::from_str("a,b,c,d,e").is_err());
    assert!(AudioSamplingRate::from_str("1 2 3").is_err());
    assert!(AudioSamplingRate::from_str("").is_err());
}

use mpdgen::{PeriodSignalling, Profile};

#[test]
fn test_definition_period_signalling_parse() {
    let input = "urn:mpeg:dash:period-continuity:2015";
    let signalling = PeriodSignalling::from_str(&input).unwrap();
    assert_eq!(&signalling.to_string(), input);
}

#[test]
fn test_definition_profile_parse() {
    let input = "urn:mpeg:dash:profile:full:2011";
    let profile = Profile::from_str(&input).unwrap();
    assert_eq!(profile, Profile::Full);

    let input = "https://example.com";
    let profile = Profile::from_str(&input).unwrap();
    assert_eq!(profile, Profile::Other(input.to_string()));
}

use athenacli::athena::Athena;
use athenacli::error::Error;

#[test]
fn new_keeps_what_it_was_given() {
    let athena =
        Athena::new("us-east-1", "db", "s3://bucket/prefix", Some("wg".to_string())).unwrap();
    assert_eq!(athena.region(), "us-east-1");
    assert_eq!(athena.database(), "db");
    assert_eq!(athena.result_bucket(), "s3://bucket/prefix");
    assert_eq!(athena.workgroup(), &Some("wg".to_string()));
    let plain = Athena::new("eu-central-1", "", "", None).unwrap();
    assert_eq!(plain.workgroup(), &None);
}

#[test]
fn new_accepts_the_spellings_that_the_region_parser_reads() {
    assert!(Athena::new("EU-WEST-1", "db", "s3://b", None).is_ok());
    assert!(Athena::new("euwest1", "db", "s3://b", None).is_ok());
    assert_eq!(Athena::new("EU-WEST-1", "db", "s3://b", None).unwrap().region(), "EU-WEST-1");
}

#[test]
fn new_refuses_an_unknown_region() {
    assert_eq!(Athena::new("mars-north-1", "db", "s3://b", None), Err(Error::InvalidRegion));
    assert_eq!(Athena::new("", "db", "s3://b", None), Err(Error::InvalidRegion));
}

#[test]
fn settings_are_made_for_a_checked_region_only() {
    assert_eq!(
        Athena::from_checked_region(false, "us-east-1", "db", "s3://b", None),
        Err(Error::InvalidRegion)
    );
    let made = Athena::from_checked_region(true, "nowhere", "db", "s3://b", None).unwrap();
    assert_eq!(made.region(), "nowhere");
}

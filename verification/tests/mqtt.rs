use adsb_sim::mqtt::{is_ownship_segment, Client, DEFAULT_PORT};

fn client(cli: &str) -> Client {
    let mut c = Client::new();
    c.set_cli(cli);
    c
}

fn fields(c: &Client) -> (&str, &str, u32, &str, &str) {
    (&c.clientid, &c.host, c.port, &c.pubtopic, &c.subtopic)
}

#[test]
fn new_client() {
    assert_eq!(DEFAULT_PORT, 1883);
    assert_eq!(fields(&Client::new()), ("", "127.0.0.1", 1883, "", ""));
}

#[test]
fn all_parameters() {
    assert_eq!(
        fields(&client("sim,broker.local:8883,/adsb:/00300159/202;/00300159/84")),
        ("sim", "broker.local", 8883, "/adsb", "/00300159/202;/00300159/84")
    );
}

#[test]
fn parameters_left_out_keep_what_was_there() {
    assert_eq!(fields(&client("")), ("", "127.0.0.1", 1883, "", ""));
    assert_eq!(fields(&client("sim")), ("sim", "127.0.0.1", 1883, "", ""));
    assert_eq!(fields(&client("sim,")), ("sim", "127.0.0.1", 1883, "", ""));
    assert_eq!(fields(&client(",,")), ("", "127.0.0.1", 1883, "", ""));
    assert_eq!(fields(&client(",host")), ("", "host", 1883, "", ""));
    assert_eq!(fields(&client(",host:1")), ("", "host", 1, "", ""));
    assert_eq!(fields(&client(",:1884")), ("", "", 1884, "", ""));
    assert_eq!(fields(&client(",,pub")), ("", "127.0.0.1", 1883, "pub", ""));
    assert_eq!(fields(&client(",,pub:sub")), ("", "127.0.0.1", 1883, "pub", "sub"));
    assert_eq!(fields(&client(",,:sub")), ("", "127.0.0.1", 1883, "", "sub"));
    assert_eq!(fields(&client(",,pub:")), ("", "127.0.0.1", 1883, "pub", ""));
    assert_eq!(fields(&client("a,b:2,c:d,e:5,f")), ("a", "b", 2, "c", "d"));
    assert_eq!(fields(&client(",h:1:2,p:s:t")), ("", "h", 1, "p", "s"));
}

#[test]
fn a_port_that_is_no_number_keeps_the_port() {
    assert_eq!(fields(&client(",host:mqtt")), ("", "host", 1883, "", ""));
    assert_eq!(fields(&client(",host:")), ("", "host", 1883, "", ""));
    assert_eq!(fields(&client(",host:-1")), ("", "host", 1883, "", ""));
    assert_eq!(fields(&client(",host:4294967296")), ("", "host", 1883, "", ""));
    assert_eq!(fields(&client(",host:+1884")), ("", "host", 1884, "", ""));
    let mut c = client(",host:9000");
    c.set_cli(",other:x");
    assert_eq!(fields(&c), ("", "other", 9000, "", ""));
}

#[test]
fn parameters_can_be_set_in_steps() {
    let mut c = Client::new();
    c.set_cli("one,here:1,out:in").set_cli("two").set_cli(",,away");
    assert_eq!(fields(&c), ("two", "here", 1, "away", "in"));
}

#[test]
fn subscriptions_are_separated_by_semicolons() {
    assert_eq!(client(",,p:a/1;b/2;c").subscriptions(), vec!["a/1", "b/2", "c"]);
    assert_eq!(client(",,p").subscriptions(), vec![""]);
    assert_eq!(client(",,p:a;;b").subscriptions(), vec!["a", "", "b"]);
}

#[test]
fn ownship_segment() {
    assert!(is_ownship_segment("202"));
    assert!(!is_ownship_segment("2020"));
    assert!(!is_ownship_segment("20"));
    assert!(!is_ownship_segment("203"));
    assert!(!is_ownship_segment("212"));
    assert!(!is_ownship_segment("302"));
    assert!(!is_ownship_segment(""));
    assert!(!is_ownship_segment("\u{ff12}02"));
}

#[test]
fn address_of_the_ownship_topic() {
    assert_eq!(client(",,/pub:/00300159/202").get_202_subtopic(), "00300159");
    assert_eq!(client(",,/pub:/00300159/84;/00abcdef/202").get_202_subtopic(), "00abcdef");
    assert_eq!(client(",,/pub:/a/202;/b/202").get_202_subtopic(), "a");
    // The address is the second segment, however many follow it.
    assert_eq!(client(",,/pub:x/y/z/202").get_202_subtopic(), "y");
    assert_eq!(client(",,/pub:x/202").get_202_subtopic(), "202");
    assert_eq!(client(",,/pub:/202").get_202_subtopic(), "202");
}

#[test]
fn without_an_ownship_topic_the_address_is_the_topic_to_publish_under() {
    assert_eq!(client(",,/pub").get_202_subtopic(), "/pub");
    assert_eq!(client(",,cafe:/00300159/84").get_202_subtopic(), "cafe");
    assert_eq!(client(",,cafe:/a/2020;/a/202/b").get_202_subtopic(), "cafe");
    // A topic of the one segment 202 does not end in /202.
    assert_eq!(client(",,cafe:202").get_202_subtopic(), "cafe");
    assert_eq!(client(",,cafe:202;/beef/202").get_202_subtopic(), "beef");
    assert_eq!(Client::new().get_202_subtopic(), "");
}

#[test]
fn icao_address_is_the_address_in_hexadecimal() {
    assert_eq!(client(",,/pub:/00300159/202").get_202_icao(), Some(0x00300159));
    assert_eq!(client(",,/pub:/00ABCDEF/202").get_202_icao(), Some(0x00abcdef));
    assert_eq!(client(",,cafe").get_202_icao(), Some(0xcafe));
    assert_eq!(client(",,/pub:/icao/202").get_202_icao(), None);
    assert_eq!(client(",,/pub").get_202_icao(), None);
    assert_eq!(client(",,/pub://202").get_202_icao(), None);
    assert_eq!(client(",,/pub:/123456789/202").get_202_icao(), None);
    assert_eq!(Client::new().get_202_icao(), None);
}

#[test]
fn frames_are_published_under_the_number_of_their_kind() {
    let c = client(",,/adsb/00300159");
    assert_eq!(c.topic_for(66), "/adsb/00300159/66");
    assert_eq!(c.topic_for(203), "/adsb/00300159/203");
    assert_eq!(c.topic_for(202), "/adsb/00300159/202");
    assert_eq!(c.topic_for(246), "/adsb/00300159/246");
    assert_eq!(c.topic_for(0), "/adsb/00300159/0");
    assert_eq!(c.topic_for(7), "/adsb/00300159/7");
    assert_eq!(c.topic_for(100), "/adsb/00300159/100");
    assert_eq!(Client::new().topic_for(255), "/255");
}

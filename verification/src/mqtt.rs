//! The parameters of the broker connection, and the topics that frames go
//! out and come in under.
//!
//! The parameters come as one string, `clientid,host:port,pubtopic:subtopic`,
//! of which any part may be left out.  The connection itself is made
//! elsewhere: nothing here talks to a broker.

use crate::text::{decimal_spec, number_spec, parse_number, push_decimal, split, split_spec, texts};
use vstd::prelude::*;
use vstd::string::{StrSliceExecFns, StringExecFns};

verus! {

/// Port of a broker that the parameters do not name a port for.
pub const DEFAULT_PORT: u32 = 1883;

/// The last segment of a topic that carries own-ship reports.
pub open spec fn ownship_segment() -> Seq<char> {
    seq!['2', '0', '2']
}

/// The `n`th part of the comma-separated parameters `cli`, where it is
/// there and not empty.
pub open spec fn cli_part(cli: Seq<char>, n: int) -> Option<Seq<char>> {
    let fission = split_spec(cli, ',');
    if n < fission.len() && fission[n].len() != 0 {
        Some(fission[n])
    } else {
        None
    }
}

/// The client identifier after the parameters `cli`.
pub open spec fn cli_clientid(before: Seq<char>, cli: Seq<char>) -> Seq<char> {
    match cli_part(cli, 0) {
        Some(part) => part,
        None => before,
    }
}

/// The host after the parameters `cli`.
pub open spec fn cli_host(before: Seq<char>, cli: Seq<char>) -> Seq<char> {
    match cli_part(cli, 1) {
        Some(part) => split_spec(part, ':')[0],
        None => before,
    }
}

/// The port after the parameters `cli`: the one that they name, where they
/// name one in decimal.
pub open spec fn cli_port(before: u32, cli: Seq<char>) -> u32 {
    match cli_part(cli, 1) {
        Some(part) => {
            let pair = split_spec(part, ':');
            if pair.len() > 1 {
                match number_spec(pair[1], 10) {
                    Some(port) => port,
                    None => before,
                }
            } else {
                before
            }
        },
        None => before,
    }
}

/// The topic to publish under after the parameters `cli`.
pub open spec fn cli_pubtopic(before: Seq<char>, cli: Seq<char>) -> Seq<char> {
    match cli_part(cli, 2) {
        Some(part) => split_spec(part, ':')[0],
        None => before,
    }
}

/// The topics to subscribe to after the parameters `cli`.
pub open spec fn cli_subtopic(before: Seq<char>, cli: Seq<char>) -> Seq<char> {
    match cli_part(cli, 2) {
        Some(part) => {
            let pair = split_spec(part, ':');
            if pair.len() > 1 {
                pair[1]
            } else {
                before
            }
        },
        None => before,
    }
}

/// The address segment of the first of `topics` that carries own-ship
/// reports: one of at least two segments, the last of them `202`.  The
/// address is its second segment.
pub open spec fn first_ownship_topic(topics: Seq<Seq<char>>) -> Option<Seq<char>>
    decreases topics.len(),
{
    if topics.len() == 0 {
        None
    } else {
        let bits = split_spec(topics[0], '/');
        if bits.len() >= 2 && bits.last() == ownship_segment() {
            Some(bits[1])
        } else {
            first_ownship_topic(topics.skip(1))
        }
    }
}

/// The parameters of the broker connection.
#[derive(Clone, Debug)]
pub struct Client {
    /// Name under which the client connects.
    pub clientid: String,
    /// Host of the broker.
    pub host: String,
    /// Port of the broker.
    pub port: u32,
    /// Topic under which frames are published, each kind under a subtopic
    /// of its own.
    pub pubtopic: String,
    /// Topics to subscribe to, separated by `;`.
    pub subtopic: String,
}

impl Client {
    /// The parameters of a nameless client of the broker on this machine.
    pub fn new() -> (c: Client)
        ensures
            c.clientid@ == Seq::<char>::empty(),
            c.host@ == "127.0.0.1"@,
            c.port == DEFAULT_PORT,
            c.pubtopic@ == Seq::<char>::empty(),
            c.subtopic@ == Seq::<char>::empty(),
    {
        Client {
            clientid: String::new(),
            host: String::from_str("127.0.0.1"),
            port: DEFAULT_PORT,
            pubtopic: String::new(),
            subtopic: String::new(),
        }
    }

    /// Takes the parameters from `cli`.  A part that is left out leaves what
    /// it stands for as it was, and so does a port that is no number.
    pub fn set_cli(&mut self, cli: &str) -> (ret: &mut Self)
        ensures
            *final(self) == *final(ret),
            ret.clientid@ == cli_clientid(old(self).clientid@, cli@),
            ret.host@ == cli_host(old(self).host@, cli@),
            ret.port == cli_port(old(self).port, cli@),
            ret.pubtopic@ == cli_pubtopic(old(self).pubtopic@, cli@),
            ret.subtopic@ == cli_subtopic(old(self).subtopic@, cli@),
    {
        let fission = split(cli, ',');
        let first: &str = fission[0];
        assert(first@ == texts(fission@)[0]);
        if first.unicode_len() != 0 {
            self.clientid = String::from_str(first);
        }
        if fission.len() > 1 {
            let second: &str = fission[1];
            assert(second@ == texts(fission@)[1]);
            if second.unicode_len() != 0 {
                let pair = split(second, ':');
                let host: &str = pair[0];
                assert(host@ == texts(pair@)[0]);
                self.host = String::from_str(host);
                if pair.len() > 1 {
                    let port: &str = pair[1];
                    assert(port@ == texts(pair@)[1]);
                    match parse_number(port, 10) {
                        Some(port) => {
                            self.port = port;
                        },
                        None => {},
                    }
                }
            }
        }
        if fission.len() > 2 {
            let third: &str = fission[2];
            assert(third@ == texts(fission@)[2]);
            if third.unicode_len() != 0 {
                let pair = split(third, ':');
                let pubtopic: &str = pair[0];
                assert(pubtopic@ == texts(pair@)[0]);
                self.pubtopic = String::from_str(pubtopic);
                if pair.len() > 1 {
                    let subtopic: &str = pair[1];
                    assert(subtopic@ == texts(pair@)[1]);
                    self.subtopic = String::from_str(subtopic);
                }
            }
        }
        self
    }

    /// The topics to subscribe to, one by one.
    pub fn subscriptions(&self) -> (topics: Vec<&str>)
        ensures
            texts(topics@) == split_spec(self.subtopic@, ';'),
    {
        split(self.subtopic.as_str(), ';')
    }

    /// The address segment of the first subscribed topic that carries
    /// own-ship reports; the topic to publish under where there is none.
    pub fn get_202_subtopic(&self) -> (address: &str)
        ensures
            address@ == (match first_ownship_topic(split_spec(self.subtopic@, ';')) {
                Some(found) => found,
                None => self.pubtopic@,
            }),
    {
        let topics = split(self.subtopic.as_str(), ';');
        let ghost all = split_spec(self.subtopic@, ';');
        let mut i: usize = 0;
        proof {
            assert(all.skip(0) =~= all);
        }
        while i < topics.len()
            invariant
                i <= topics@.len(),
                all == split_spec(self.subtopic@, ';'),
                texts(topics@) == all,
                first_ownship_topic(all) == first_ownship_topic(all.skip(i as int)),
            decreases topics@.len() - i,
        {
            let topic: &str = topics[i];
            assert(topic@ == texts(topics@)[i as int]);
            let bits = split(topic, '/');
            let last: &str = bits[bits.len() - 1];
            assert(last@ == texts(bits@)[bits@.len() - 1]);
            proof {
                assert(all.skip(i as int)[0] == topic@);
                assert(all.skip(i as int).skip(1) =~= all.skip(i + 1));
                assert(texts(bits@).last() == last@);
                assert(texts(bits@).len() == bits@.len());
            }
            if bits.len() >= 2 && is_ownship_segment(last) {
                let address: &str = bits[1];
                assert(address@ == texts(bits@)[1]);
                return address;
            }
            i = i + 1;
        }
        self.pubtopic.as_str()
    }

    /// The ICAO address that the intruder is reported under: the address
    /// segment of the own-ship topic read as a hexadecimal number, where it
    /// is one.
    pub fn get_202_icao(&self) -> (icao: Option<u32>)
        ensures
            icao == number_spec(
                match first_ownship_topic(split_spec(self.subtopic@, ';')) {
                    Some(found) => found,
                    None => self.pubtopic@,
                },
                16,
            ),
    {
        parse_number(self.get_202_subtopic(), 16)
    }

    /// The topic that a frame of kind `msgid` is published under: the topic
    /// to publish under, a slash, and the kind in decimal.
    pub fn topic_for(&self, msgid: u8) -> (topic: String)
        ensures
            topic@ == self.pubtopic@ + seq!['/'] + decimal_spec(msgid as nat),
    {
        let mut fussy = self.pubtopic.clone();
        proof {
            reveal_strlit("/");
        }
        fussy.append("/");
        assert(fussy@ =~= self.pubtopic@ + seq!['/']);
        push_decimal(&mut fussy, msgid);
        fussy
    }
}

/// Whether `segment` is the segment that marks a topic of own-ship reports.
pub fn is_ownship_segment(segment: &str) -> (r: bool)
    ensures
        r == (segment@ == ownship_segment()),
{
    let r: bool = segment.unicode_len() == 3 && segment.get_char(0) == '2' && segment.get_char(1)
        == '0' && segment.get_char(2) == '2';
    assert(r == (segment@ =~= ownship_segment()));
    r
}

} // verus!

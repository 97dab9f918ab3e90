//! Discovery: reading the device location out of SSDP responses.

use vstd::prelude::*;
use vstd::string::*;
use crate::constants::TARGET_URN;
use crate::error::HeosError;
use crate::heos_device::HeosDevice;
use crate::text::{contains_seq, find, split_on, split_once, trim, trimmed};

verus! {

/// The header block of a response: the text before the first empty line.
pub open spec fn header_of(s: Seq<char>) -> Seq<char> {
    split_on(s, seq!['\r', '\n', '\r', '\n'])[0]
}

/// The value of the first header line that mentions `LOCATION` and holds a
/// `:`: the text after that first `:`, trimmed.
pub open spec fn location_in(lines: Seq<Seq<char>>) -> Option<Seq<char>>
    decreases lines.len(),
{
    if lines.len() == 0 {
        None
    } else if contains_seq(lines[0], "LOCATION"@) && split_once(lines[0], seq![':']) is Some {
        Some(trimmed(split_once(lines[0], seq![':'])->Some_0.1))
    } else {
        location_in(lines.drop_first())
    }
}

/// The location that a discovery response announces.
pub open spec fn discovery_location(s: Seq<char>) -> Option<Seq<char>> {
    location_in(split_on(header_of(s), seq!['\r', '\n']))
}

/// Scans a location from position `i`, where `start` is just past the last
/// `/` seen (0 if none): the span from there to the first `:` that follows
/// a `/`.
pub open spec fn host_span(s: Seq<char>, i: int, start: int) -> Option<(int, int)>
    decreases s.len() - i,
{
    if i < 0 || i >= s.len() {
        None
    } else if s[i] == '/' {
        host_span(s, i + 1, i + 1)
    } else if s[i] == ':' && start > 0 {
        Some((start, i))
    } else {
        host_span(s, i + 1, start)
    }
}

/// The host of a location such as `http://host:port/path`: the text between
/// the last `/` and the first `:` after a `/`, if not empty.
pub open spec fn location_host(s: Seq<char>) -> Option<Seq<char>> {
    match host_span(s, 0, 0) {
        Some((a, b)) => if a < b {
            Some(s.subrange(a, b))
        } else {
            None
        },
        None => None,
    }
}

/// The location a datagram announces, when it answers the HEOS search target.
pub open spec fn datagram_location(s: Seq<char>) -> Option<Seq<char>> {
    if contains_seq(s, TARGET_URN@) {
        discovery_location(s)
    } else {
        None
    }
}

/// The entry point of discovery; devices are found through the location of
/// each response.
pub struct Heos {
    pub devices: Vec<HeosDevice>,
}

impl Heos {
    /// A discovery session that knows no devices yet.
    pub fn new() -> (r: Self)
        ensures
            r.devices@.len() == 0,
    {
        Heos { devices: Vec::new() }
    }

    /// The location announced by a discovery response.
    pub fn parse_discovery_response(response_str: &str) -> (r: Result<String, HeosError>)
        ensures
            match discovery_location(response_str@) {
                Some(l) => r matches Ok(s) && s@ == l,
                None => r == Err::<String, HeosError>(HeosError::InvalidResponse),
            },
    {
        proof {
            reveal_strlit("\r\n\r\n");
            reveal_strlit("\r\n");
            reveal_strlit(":");
        }
        let blank = "\r\n\r\n";
        let crlf = "\r\n";
        let colon = ":";
        assert(blank@ =~= seq!['\r', '\n', '\r', '\n']);
        assert(crlf@ =~= seq!['\r', '\n']);
        assert(colon@ =~= seq![':']);
        let header: &str = match find(response_str, blank) {
            Some(i) => response_str.substring_char(0, i),
            None => response_str,
        };
        assert(header@ =~= header_of(response_str@));
        let mut rest: &str = header;
        loop
            invariant
                crlf@ == seq!['\r', '\n'],
                colon@ == seq![':'],
                discovery_location(response_str@) == location_in(split_on(rest@, crlf@)),
            decreases rest@.len(),
        {
            let n = rest.unicode_len();
            let (line, next): (&str, Option<&str>) = match find(rest, crlf) {
                Some(i) => (rest.substring_char(0, i), Some(rest.substring_char(i + 2, n))),
                None => (rest, None),
            };
            let ghost lines = split_on(rest@, crlf@);
            proof {
                assert(lines.len() > 0);
                assert(lines[0] == line@);
                assert(lines.drop_first() == match next {
                    Some(t) => split_on(t@, crlf@),
                    None => Seq::<Seq<char>>::empty(),
                }) by {
                    match next {
                        Some(t) => {
                            assert(lines =~= seq![line@] + split_on(t@, crlf@));
                        },
                        None => {},
                    }
                };
            }
            if find(line, "LOCATION").is_some() {
                match find(line, colon) {
                    Some(i) => {
                        let len = line.unicode_len();
                        let value = line.substring_char(i + 1, len);
                        proof {
                            assert(value@ =~= line@.skip(i + 1));
                        }
                        return Ok(trim(value));
                    },
                    None => {},
                }
            }
            match next {
                Some(t) => {
                    rest = t;
                },
                None => {
                    proof {
                        assert(location_in(Seq::<Seq<char>>::empty()) is None);
                    }
                    return Err(HeosError::InvalidResponse);
                },
            }
        }
    }

    /// The host of a location url such as `http://host:port/path`.
    pub fn parse_location(location_str: &str) -> (r: Result<String, HeosError>)
        ensures
            match location_host(location_str@) {
                Some(h) => r matches Ok(s) && s@ == h,
                None => r == Err::<String, HeosError>(HeosError::InvalidLocation),
            },
    {
        let n = location_str.unicode_len();
        let mut start: usize = 0;
        let mut i: usize = 0;
        while i < n
            invariant
                n == location_str@.len(),
                start <= i <= n,
                host_span(location_str@, 0, 0) == host_span(location_str@, i as int, start as int),
            decreases n - i,
        {
            let c = location_str.get_char(i);
            if c == '/' {
                start = i + 1;
            } else if c == ':' && start > 0 {
                if start < i {
                    return Ok(String::from_str(location_str.substring_char(start, i)));
                } else {
                    return Err(HeosError::InvalidLocation);
                }
            }
            i += 1;
        }
        Err(HeosError::InvalidLocation)
    }

    /// The location announced by a datagram, if it answers the HEOS search
    /// target and carries a location; anything else is skipped.
    pub fn location_from_datagram(payload: &str) -> (r: Option<String>)
        ensures
            match datagram_location(payload@) {
                Some(l) => r matches Some(s) && s@ == l,
                None => r is None,
            },
    {
        if find(payload, TARGET_URN).is_none() {
            return None;
        }
        match Self::parse_discovery_response(payload) {
            Ok(location) => Some(location),
            Err(_) => None,
        }
    }
}

} // verus!

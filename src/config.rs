//! The run's settings, each with a default used when it is missing or does
//! not parse, and the workers that a run starts.

use crate::listener::Listener;
use crate::poster::Poster;
use crate::text::{decimal_value, parse_u64, stream_name, stream_name_of};
use rand::Rng;
use vstd::prelude::*;
use vstd::string::StringExecFns;

verus! {

/// Documents, and so streams, when none is configured.
pub const DEFAULT_NUM_DOCS: u64 = 10;

/// Listeners when none is configured.
pub const DEFAULT_NUM_LISTENERS: u64 = 100;

/// Posters when none is configured.
pub const DEFAULT_NUM_POSTERS: u64 = 100;

/// The setting read from `value`, or `default` when it is missing or not the
/// decimal text of a `u64`.
pub open spec fn count_or(value: Option<Seq<char>>, default: u64) -> u64 {
    match value {
        Some(s) => match decimal_value(s) {
            Some(v) => v,
            None => default,
        },
        None => default,
    }
}

/// The server address used when none is configured.
pub open spec fn default_base_url_spec() -> Seq<char> {
    "http://localhost:3000"@
}

/// Whether `s` names one of the streams of documents `0..num_docs`.
pub open spec fn is_stream_among(s: Seq<char>, num_docs: u64) -> bool {
    exists|d: nat| d < num_docs && #[trigger] stream_name_of(d) == s
}

/// The setting read from `value`, or `default` when it is missing or does not
/// parse.
pub fn count_or_default(value: Option<String>, default: u64) -> (r: u64)
    ensures
        r == count_or(
            match value {
                Some(s) => Some(s@),
                None => None,
            },
            default,
        ),
{
    match value {
        Some(s) => match parse_u64(s.as_str()) {
            Some(v) => v,
            None => default,
        },
        None => default,
    }
}

/// The server address used when none is configured.
pub fn default_base_url() -> (r: String)
    ensures
        r@ == default_base_url_spec(),
{
    String::from_str("http://localhost:3000")
}

/// Relies on `rand::rng()` and `Rng::random_range(0..n)`: a number below `n`,
/// drawn uniformly. It panics on an empty range, so `n` is positive.
#[verifier::external_body]
fn random_below(n: u64) -> (r: u64)
    requires
        n > 0,
    ensures
        r < n,
{
    rand::rng().random_range(0..n)
}

/// The settings of a run.
pub struct Config {
    pub base_url: String,
    pub num_docs: u64,
    pub num_listeners: u64,
    pub num_posters: u64,
}

impl Config {
    /// The settings from the raw values of `BASE_URL`, `NUM_DOCS`,
    /// `NUM_LISTENERS` and `NUM_POSTERS`, each falling back to its default
    /// on its own.
    pub fn from_values(
        base_url: Option<String>,
        num_docs: Option<String>,
        num_listeners: Option<String>,
        num_posters: Option<String>,
    ) -> (r: Config)
        ensures
            r.base_url@ == (match base_url {
                Some(s) => s@,
                None => default_base_url_spec(),
            }),
            r.num_docs == count_or(
                match num_docs {
                    Some(s) => Some(s@),
                    None => None,
                },
                DEFAULT_NUM_DOCS,
            ),
            r.num_listeners == count_or(
                match num_listeners {
                    Some(s) => Some(s@),
                    None => None,
                },
                DEFAULT_NUM_LISTENERS,
            ),
            r.num_posters == count_or(
                match num_posters {
                    Some(s) => Some(s@),
                    None => None,
                },
                DEFAULT_NUM_POSTERS,
            ),
    {
        let base_url = match base_url {
            Some(s) => s,
            None => default_base_url(),
        };
        Config {
            base_url,
            num_docs: count_or_default(num_docs, DEFAULT_NUM_DOCS),
            num_listeners: count_or_default(num_listeners, DEFAULT_NUM_LISTENERS),
            num_posters: count_or_default(num_posters, DEFAULT_NUM_POSTERS),
        }
    }

    /// A stream drawn at random among the configured documents; nothing when
    /// there are none to draw from.
    pub fn assign_stream(&self) -> (r: Option<String>)
        ensures
            r is None <==> self.num_docs == 0,
            r matches Some(s) ==> is_stream_among(s@, self.num_docs),
    {
        if self.num_docs == 0 {
            None
        } else {
            let d = random_below(self.num_docs);
            let s = stream_name(d);
            assert(stream_name_of(d as nat) == s@);
            Some(s)
        }
    }

    /// The listeners of the run, numbered from zero, each on a stream drawn at
    /// random; nothing when listeners are asked for but there is no document.
    pub fn listeners(&self) -> (r: Option<Vec<Listener>>)
        ensures
            r is None <==> (self.num_docs == 0 && self.num_listeners > 0),
            r matches Some(ls) ==> ls@.len() == self.num_listeners && forall|i: int|
                0 <= i < ls@.len() ==> {
                    &&& (#[trigger] ls@[i]).wf()
                    &&& ls@[i]@.index == i
                    &&& is_stream_among(ls@[i]@.stream, self.num_docs)
                    &&& ls@[i]@.cursor == "0"@
                    &&& ls@[i]@.avg_delay == 0
                    &&& ls@[i]@.num_loops == 1
                },
    {
        let mut ls: Vec<Listener> = Vec::new();
        let mut i: u64 = 0;
        while i < self.num_listeners
            invariant
                i <= self.num_listeners,
                ls@.len() == i,
                i > 0 ==> self.num_docs > 0,
                forall|j: int|
                    0 <= j < ls@.len() ==> {
                        &&& (#[trigger] ls@[j]).wf()
                        &&& ls@[j]@.index == j
                        &&& is_stream_among(ls@[j]@.stream, self.num_docs)
                        &&& ls@[j]@.cursor == "0"@
                        &&& ls@[j]@.avg_delay == 0
                        &&& ls@[j]@.num_loops == 1
                    },
            decreases self.num_listeners - i,
        {
            let stream = match self.assign_stream() {
                Some(s) => s,
                None => {
                    return None;
                },
            };
            ls.push(Listener::new(i, stream));
            i = i + 1;
        }
        Some(ls)
    }

    /// The posters of the run, each on a stream drawn at random and with no
    /// attempt made; nothing when posters are asked for but there is no
    /// document.
    pub fn posters(&self) -> (r: Option<Vec<Poster>>)
        ensures
            r is None <==> (self.num_docs == 0 && self.num_posters > 0),
            r matches Some(ps) ==> ps@.len() == self.num_posters && forall|i: int|
                0 <= i < ps@.len() ==> {
                    &&& is_stream_among((#[trigger] ps@[i])@.stream, self.num_docs)
                    &&& ps@[i]@.version == 0
                },
    {
        let mut ps: Vec<Poster> = Vec::new();
        let mut i: u64 = 0;
        while i < self.num_posters
            invariant
                i <= self.num_posters,
                ps@.len() == i,
                i > 0 ==> self.num_docs > 0,
                forall|j: int|
                    0 <= j < ps@.len() ==> {
                        &&& is_stream_among((#[trigger] ps@[j])@.stream, self.num_docs)
                        &&& ps@[j]@.version == 0
                    },
            decreases self.num_posters - i,
        {
            let stream = match self.assign_stream() {
                Some(s) => s,
                None => {
                    return None;
                },
            };
            ps.push(Poster::new(stream));
            i = i + 1;
        }
        Some(ps)
    }
}

} // verus!

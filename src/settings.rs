//! Transport addresses of the form `tcp:<host>:<port>`, `udp:<host>:<port>`
//! or `serial:<device>`.
use vstd::prelude::*;
use vstd::string::{StrSliceExecFns, StringExecFns};

verus! {

/// The kind of transport an address names.
#[derive(Debug, Clone, Copy, PartialEq, Eq, Structural)]
pub enum TransportKind {
    Tcp,
    Udp,
    Serial,
}

/// A transport and the address it serves on.
#[derive(Clone)]
pub enum TransportAddress {
    Tcp(String),
    Udp(String),
    Serial(String),
}

impl View for TransportAddress {
    type V = (TransportKind, Seq<char>);

    open spec fn view(&self) -> (TransportKind, Seq<char>) {
        match self {
            TransportAddress::Tcp(a) => (TransportKind::Tcp, a@),
            TransportAddress::Udp(a) => (TransportKind::Udp, a@),
            TransportAddress::Serial(a) => (TransportKind::Serial, a@),
        }
    }
}

/// `k` is the position of the first `:` in `s`, or its length if it has none.
pub open spec fn is_first_colon(s: Seq<char>, k: int) -> bool {
    &&& 0 <= k <= s.len()
    &&& forall|j: int| 0 <= j < k ==> s[j] != ':'
    &&& k < s.len() ==> s[k] == ':'
}

/// The address that `s` names, given the position `k` of its first colon:
/// the word before the colon picks the transport, and what follows the
/// colon, which must not be empty, is the address.
pub open spec fn address_of(s: Seq<char>, k: int) -> Option<(TransportKind, Seq<char>)> {
    let tp = s.take(k);
    let rest = s.skip(k + 1);
    if k + 1 >= s.len() {
        None
    } else if tp == seq!['t', 'c', 'p'] {
        Some((TransportKind::Tcp, rest))
    } else if tp == seq!['u', 'd', 'p'] {
        Some((TransportKind::Udp, rest))
    } else if tp == seq!['s', 'e', 'r', 'i', 'a', 'l'] {
        Some((TransportKind::Serial, rest))
    } else {
        None
    }
}

/// Whether the first `k` characters of `s` are exactly `word`.
fn word_is(s: &str, k: usize, word: &str) -> (r: bool)
    requires
        k <= s@.len(),
    ensures
        r == (s@.take(k as int) == word@),
{
    let n = word.unicode_len();
    if n != k {
        assert(s@.take(k as int).len() != word@.len());
        return false;
    }
    let mut i: usize = 0;
    while i < k
        invariant
            i <= k,
            k <= s@.len(),
            n == k,
            n == word@.len(),
            s@.take(i as int) == word@.take(i as int),
        decreases k - i,
    {
        if s.get_char(i) != word.get_char(i) {
            assert(s@.take(k as int)[i as int] != word@[i as int]);
            return false;
        }
        i = i + 1;
        assert(s@.take(i as int) =~= word@.take(i as int));
    }
    assert(s@.take(k as int) =~= word@.take(k as int));
    assert(word@.take(k as int) =~= word@);
    true
}

impl TransportAddress {
    /// Reads an address of the form `<transport>:<address>`.
    pub fn parse(s: &str) -> (r: Result<TransportAddress, ()>)
        ensures
            forall|k: int|
                is_first_colon(s@, k) ==> match address_of(s@, k) {
                    Some(a) => r is Ok && r->Ok_0@ == a,
                    None => r is Err,
                },
    {
        let len = s.unicode_len();
        let mut k: usize = 0;
        while k < len && s.get_char(k) != ':'
            invariant
                k <= len,
                len == s@.len(),
                forall|j: int| 0 <= j < k ==> s@[j] != ':',
            decreases len - k,
        {
            k = k + 1;
        }
        assert forall|k2: int| is_first_colon(s@, k2) implies k2 == k by {
            if k2 < k {
                assert(s@[k2] != ':');
            } else if k2 > k {
                assert(s@[k as int] == ':');
            }
        }
        assert(is_first_colon(s@, k as int));
        if len - k <= 1 {
            return Err(());
        }
        let rest = String::from_str(s.substring_char(k + 1, len));
        assert(s@.subrange(k + 1, len as int) =~= s@.skip(k + 1));
        proof {
            reveal_strlit("tcp");
            reveal_strlit("udp");
            reveal_strlit("serial");
            assert("tcp"@ =~= seq!['t', 'c', 'p']);
            assert("udp"@ =~= seq!['u', 'd', 'p']);
            assert("serial"@ =~= seq!['s', 'e', 'r', 'i', 'a', 'l']);
        }
        if word_is(s, k, "tcp") {
            Ok(TransportAddress::Tcp(rest))
        } else if word_is(s, k, "udp") {
            Ok(TransportAddress::Udp(rest))
        } else if word_is(s, k, "serial") {
            Ok(TransportAddress::Serial(rest))
        } else {
            Err(())
        }
    }

    /// The address without its transport.
    pub fn get(&self) -> (r: &str)
        ensures
            r@ == self@.1,
    {
        match self {
            TransportAddress::Tcp(address) => address.as_str(),
            TransportAddress::Udp(address) => address.as_str(),
            TransportAddress::Serial(address) => address.as_str(),
        }
    }
}

impl std::str::FromStr for TransportAddress {
    type Err = ();

    fn from_str(s: &str) -> Result<Self, Self::Err> {
        TransportAddress::parse(s)
    }
}

/// Where a slave serves.
#[derive(Clone)]
pub struct Settings {
    pub address: TransportAddress,
}

impl Default for Settings {
    /// TCP on all interfaces, port 502.
    fn default() -> (r: Settings)
        ensures
            r.address@ == (TransportKind::Tcp, "0.0.0.0:502"@),
    {
        Settings { address: TransportAddress::Tcp(String::from_str("0.0.0.0:502")) }
    }
}

} // verus!

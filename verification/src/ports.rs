//! The ports that plugins reach the host on.

use crate::text;
use vstd::prelude::*;
use vstd::string::*;

verus! {

/// The first port that is tried.
pub const FIRST_PORT: u16 = 57116;

/// How far the search for a port has come. Two ports are needed: one that
/// plugins connect to, and the second one above it, on which files are served.
#[derive(Clone, Copy, Debug, PartialEq, Eq, Structural)]
pub enum PortSearch {
    /// This port is to be tried, with the second one above it.
    Try(u16),
    /// This port and the second one above it are free.
    Found(u16),
    /// There are no more ports to try.
    Exhausted,
}

/// The search after `candidate` was tried.
pub open spec fn judged(candidate: u16, connections: bool, files: bool) -> PortSearch {
    if connections && files {
        PortSearch::Found(candidate)
    } else if candidate + 3 <= u16::MAX {
        PortSearch::Try((candidate + 1) as u16)
    } else {
        PortSearch::Exhausted
    }
}

/// Goes on with the search after `candidate` was tried: `connections` is whether
/// it was free, and `files` whether the second port above it was.
pub fn judge(candidate: u16, connections: bool, files: bool) -> (search: PortSearch)
    requires
        candidate + 2 <= u16::MAX,
    ensures
        search == judged(candidate, connections, files),
{
    if connections && files {
        PortSearch::Found(candidate)
    } else if candidate <= u16::MAX - 3 {
        PortSearch::Try(candidate + 1)
    } else {
        PortSearch::Exhausted
    }
}

/// The search after some tries; each says whether the two ports were free.
pub open spec fn search_after(tries: Seq<(bool, bool)>) -> PortSearch
    decreases tries.len(),
{
    if tries.len() == 0 {
        PortSearch::Try(FIRST_PORT)
    } else {
        match search_after(tries.drop_last()) {
            PortSearch::Try(candidate) => judged(candidate, tries.last().0, tries.last().1),
            ended => ended,
        }
    }
}

/// Whether both ports were free.
pub open spec fn both_free(outcome: (bool, bool)) -> bool {
    outcome.0 && outcome.1
}

/// A search in which no port is free tries every port up to the end.
pub proof fn law_search_without_free_ports(tries: Seq<(bool, bool)>)
    requires
        forall|i: int| 0 <= i < tries.len() ==> !both_free(#[trigger] tries[i]),
    ensures
        search_after(tries) == if FIRST_PORT + tries.len() + 2 <= u16::MAX {
            PortSearch::Try((FIRST_PORT + tries.len()) as u16)
        } else {
            PortSearch::Exhausted
        },
    decreases tries.len(),
{
    if tries.len() > 0 {
        let first = tries.drop_last();
        assert forall|i: int| 0 <= i < first.len() implies !both_free(#[trigger] first[i]) by {
            assert(!both_free(tries[i]));
        }
        law_search_without_free_ports(first);
        assert(!both_free(tries[tries.len() - 1]));
    }
}

/// The search finds the first port that is free together with the second one
/// above it, and then stays with it.
pub proof fn law_search_finds_first_free_port(tries: Seq<(bool, bool)>, at: int)
    requires
        0 <= at < tries.len(),
        both_free(tries[at]),
        forall|i: int| 0 <= i < at ==> !both_free(#[trigger] tries[i]),
        FIRST_PORT + at + 2 <= u16::MAX,
    ensures
        search_after(tries) == PortSearch::Found((FIRST_PORT + at) as u16),
    decreases tries.len(),
{
    let first = tries.drop_last();
    if at == tries.len() - 1 {
        assert forall|i: int| 0 <= i < first.len() implies !both_free(#[trigger] first[i]) by {
            assert(!both_free(tries[i]));
        }
        law_search_without_free_ports(first);
    } else {
        assert forall|i: int| 0 <= i < at implies !both_free(#[trigger] first[i]) by {
            assert(!both_free(tries[i]));
        }
        law_search_finds_first_free_port(first, at);
    }
}

/// A port that was found leaves room for the second one above it.
pub proof fn law_found_port_has_room(tries: Seq<(bool, bool)>)
    ensures
        match search_after(tries) {
            PortSearch::Try(port) => FIRST_PORT <= port && port + 2 <= u16::MAX,
            PortSearch::Found(port) => FIRST_PORT <= port && port + 2 <= u16::MAX,
            PortSearch::Exhausted => true,
        },
    decreases tries.len(),
{
    if tries.len() > 0 {
        law_found_port_has_room(tries.drop_last());
    }
}

/// The address of `port` on all interfaces.
pub open spec fn address(port: u16) -> Seq<char> {
    "0.0.0.0:"@ + text::decimal(port as nat)
}

/// Writes the address of `port` on all interfaces.
pub fn listening_address(port: u16) -> (result: String)
    ensures
        result@ == address(port),
{
    "0.0.0.0:".to_owned().concat(text::to_decimal(port as u64).as_str())
}

/// A port is found where it and the second one above it are free, and only there.
/// Otherwise the next port is tried, as long as there is room for the second one
/// above that.
pub proof fn law_search_goes_on_by_one(candidate: u16, connections: bool, files: bool)
    ensures
        judged(candidate, connections, files) matches PortSearch::Found(port) ==> connections
            && files && port == candidate,
        judged(candidate, connections, files) matches PortSearch::Try(port) ==> !(connections
            && files) && port == candidate + 1 && port + 2 <= 65535,
        judged(candidate, connections, files) is Exhausted ==> !(connections && files) && candidate
            + 3 > 65535,
{
}

/// The search begins at port 57116.
pub proof fn law_first_port()
    ensures
        search_after(Seq::empty()) == PortSearch::Try(57116),
{
}

/// An address is that of all interfaces, and after its colon stands the port.
pub proof fn law_address_ends_with_the_port(port: u16)
    ensures
        address(port).take(8) == "0.0.0.0:"@,
        text::value_of(address(port).skip(8)) == port,
        address(port)[8] == '0' ==> port == 0,
{
    reveal_strlit("0.0.0.0:");
    let digits = text::decimal(port as nat);
    text::law_decimal_reads_back(port as nat);
    text::law_decimal_is_digits(port as nat);
    assert("0.0.0.0:"@.len() == 8);
    assert(address(port).take(8) =~= "0.0.0.0:"@);
    assert(address(port).skip(8) =~= digits);
    assert(address(port)[8] == digits[0]);
    if digits[0] == '0' {
        assert(digits =~= seq!['0']);
        reveal_with_fuel(text::value_of, 2);
        assert(digits.drop_last() =~= Seq::empty());
    }
}

} // verus!

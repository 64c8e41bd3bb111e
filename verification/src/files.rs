//! Which entries of the state directory hold session state.

use vstd::prelude::*;
use vstd::string::StrSliceExecFns;

verus! {

/// A state file is named "<stem>.json" with a non-empty stem, i.e. its
/// extension is exactly "json".
pub open spec fn is_state_name(name: Seq<char>) -> bool {
    &&& name.len() > 5
    &&& name.subrange(name.len() - 5, name.len() as int) == seq!['.', 'j', 's', 'o', 'n']
}

/// A state file name is a non-empty stem followed by ".json".
pub proof fn state_name_is_stem_dot_json(name: Seq<char>)
    ensures
        is_state_name(name) <==> exists|stem: Seq<char>| stem.len() > 0 && name == stem + ".json"@,
{
    reveal_strlit(".json");
    if is_state_name(name) {
        let stem = name.subrange(0, name.len() - 5);
        assert(name =~= stem + ".json"@);
    }
    if exists|stem: Seq<char>| stem.len() > 0 && name == stem + ".json"@ {
        let stem = choose|stem: Seq<char>| stem.len() > 0 && name == stem + ".json"@;
        assert(name.subrange(name.len() - 5, name.len() as int) =~= seq!['.', 'j', 's', 'o', 'n']);
    }
}

/// Decides from a file name whether the entry is a session state file.
pub fn is_state_file(name: &str) -> (r: bool)
    ensures
        r == is_state_name(name@),
{
    let n = name.unicode_len();
    if n <= 5 {
        return false;
    }
    let r = name.get_char(n - 5) == '.' && name.get_char(n - 4) == 'j' && name.get_char(n - 3) == 's'
        && name.get_char(n - 2) == 'o' && name.get_char(n - 1) == 'n';
    assert(r == is_state_name(name@)) by {
        let tail = name@.subrange(n - 5, n as int);
        if r {
            assert(tail =~= seq!['.', 'j', 's', 'o', 'n']);
        } else {
            if tail == seq!['.', 'j', 's', 'o', 'n'] {
                assert(tail[0] == '.' && tail[1] == 'j' && tail[2] == 's' && tail[3] == 'o' && tail[4] == 'n');
            }
        }
    }
    r
}

} // verus!

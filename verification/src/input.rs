//! Validators for the raw answers that the interactive prompt layer reads.
//! Each one is a pure predicate on the answer string; the prompt layer
//! re-asks its question until the validator accepts.

use vstd::prelude::*;

use crate::text::str_eq;

verus! {

/// A yes/no answer: exactly "y" or "n".
pub open spec fn spec_is_yes_no_token(s: Seq<char>) -> bool {
    s == "y"@ || s == "n"@
}

/// A language token: exactly "c", "cpp" or "c++".
pub open spec fn spec_is_lang_token(s: Seq<char>) -> bool {
    s == "c"@ || s == "cpp"@ || s == "c++"@
}

/// A standard token: the sentinel "latest", or a string that begins with the
/// recognized compiler-flag prefix "-std=".
pub open spec fn spec_is_standard_token(s: Seq<char>) -> bool {
    s == "latest"@ || (s.len() >= 5 && s.subrange(0, 5) == "-std="@)
}

pub fn validate_yes_no_response(input: String) -> (r: bool)
    ensures
        r == spec_is_yes_no_token(input@),
{
    str_eq(input.as_str(), "y") || str_eq(input.as_str(), "n")
}

pub fn validate_lang_response(input: String) -> (r: bool)
    ensures
        r == spec_is_lang_token(input@),
{
    str_eq(input.as_str(), "c") || str_eq(input.as_str(), "cpp") || str_eq(input.as_str(), "c++")
}

pub fn validate_stdlib_response(input: String) -> (r: bool)
    ensures
        r == spec_is_standard_token(input@),
{
    str_eq(input.as_str(), "latest") || has_std_flag_prefix(input.as_str())
}

/// Does `s` begin with the five characters of "-std="?
fn has_std_flag_prefix(s: &str) -> (r: bool)
    ensures
        r == (s@.len() >= 5 && s@.subrange(0, 5) == "-std="@),
{
    proof {
        reveal_strlit("-std=");
    }
    let n = s.unicode_len();
    if n < 5 {
        return false;
    }
    let matched = s.get_char(0) == '-' && s.get_char(1) == 's' && s.get_char(2) == 't'
        && s.get_char(3) == 'd' && s.get_char(4) == '=';
    proof {
        if matched {
            assert(s@.subrange(0, 5) =~= "-std="@);
        } else {
            if s@.subrange(0, 5) == "-std="@ {
                assert(s@.subrange(0, 5)[0] == s@[0]);
                assert(s@.subrange(0, 5)[1] == s@[1]);
                assert(s@.subrange(0, 5)[2] == s@[2]);
                assert(s@.subrange(0, 5)[3] == s@[3]);
                assert(s@.subrange(0, 5)[4] == s@[4]);
            }
        }
    }
    matched
}

} // verus!

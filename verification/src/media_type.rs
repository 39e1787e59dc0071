//! What makes a string a media type.

use vstd::prelude::*;

verus! {

/// A character that may stand in a token: an ASCII letter or digit, or one
/// of ``!#$%&'*+-.^_`|~``.
pub open spec fn is_token_char(c: char) -> bool {
    ||| 'a' <= c <= 'z'
    ||| 'A' <= c <= 'Z'
    ||| '0' <= c <= '9'
    ||| c == '!'
    ||| c == '#'
    ||| c == '$'
    ||| c == '%'
    ||| c == '&'
    ||| c == '\''
    ||| c == '*'
    ||| c == '+'
    ||| c == '-'
    ||| c == '.'
    ||| c == '^'
    ||| c == '_'
    ||| c == '`'
    ||| c == '|'
    ||| c == '~'
}

/// The characters of `s` from `from` up to `to` are a token: there is at
/// least one, and each is a token character.
pub open spec fn is_token(s: Seq<char>, from: int, to: int) -> bool {
    &&& 0 <= from < to <= s.len()
    &&& forall|i: int| from <= i < to ==> is_token_char(#[trigger] s[i])
}

/// `s` is `type/subtype` with the slash at `slash`.
pub open spec fn is_essence(s: Seq<char>, slash: int) -> bool {
    &&& is_token(s, 0, slash)
    &&& s[slash] == '/'
    &&& is_token(s, slash + 1, s.len() as int)
}

/// `s` is `type/subtype; name=value` with the slash at `slash`, the
/// semicolon at `semi` and the equals sign at `eq`.
pub open spec fn is_essence_with_parameter(s: Seq<char>, slash: int, semi: int, eq: int) -> bool {
    &&& is_token(s, 0, slash)
    &&& s[slash] == '/'
    &&& is_token(s, slash + 1, semi)
    &&& s[semi] == ';'
    &&& s[semi + 1] == ' '
    &&& is_token(s, semi + 2, eq)
    &&& s[eq] == '='
    &&& is_token(s, eq + 1, s.len() as int)
}

/// `s` is a media type: a type and a subtype, both tokens, with a slash
/// between them, alone or followed by one parameter.
pub open spec fn is_media_type(s: Seq<char>) -> bool {
    ||| exists|slash: int| #[trigger] is_essence(s, slash)
    ||| exists|slash: int, semi: int, eq: int| #[trigger]
        is_essence_with_parameter(s, slash, semi, eq)
}

} // verus!

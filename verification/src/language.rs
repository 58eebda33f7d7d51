//! The supported execution languages and the mapping between their text names
//! (matched case-insensitively) and their wire enum codes.

use vstd::prelude::*;

verus! {

/// The languages the backend wire enum distinguishes. `Unspecified` stands
/// for every name the gateway does not recognize; the backend rejects it.
#[derive(Clone, Copy, PartialEq, Eq, Structural, Debug)]
pub enum Language {
    Unspecified,
    Python,
    Javascript,
    Typescript,
    Rust,
    Go,
    Java,
    Cpp,
    Csharp,
    Ruby,
    Php,
    Shell,
}

/// The ASCII lowercase counterpart of a character: the letters A through Z
/// map onto a through z, every other character is unchanged.
pub open spec fn lower_char(c: char) -> char {
    let n = c as u32;
    if 65 <= n && n <= 90 {
        ((n + 32) as u8) as char
    } else {
        c
    }
}

/// A character sequence with every ASCII uppercase letter lowered.
pub open spec fn lower_seq(s: Seq<char>) -> Seq<char> {
    s.map_values(|c: char| lower_char(c))
}

fn lower_char_exec(c: char) -> (r: char)
    ensures
        r == lower_char(c),
{
    let n = c as u32;
    if 65 <= n && n <= 90 {
        ((n + 32) as u8) as char
    } else {
        c
    }
}

/// ASCII-case-insensitive string equality: whether the two strings agree once
/// every ASCII uppercase letter is lowered.
fn eq_ignore_case(a: &str, b: &str) -> (r: bool)
    ensures
        r == (lower_seq(a@) == lower_seq(b@)),
{
    let alen = a.unicode_len();
    let blen = b.unicode_len();
    if alen != blen {
        proof {
            assert(lower_seq(a@).len() == a@.len());
            assert(lower_seq(b@).len() == b@.len());
        }
        return false;
    }
    let mut i: usize = 0;
    while i < alen
        invariant
            i <= alen,
            alen == a@.len(),
            alen == b@.len(),
            forall|j: int| 0 <= j < i ==> lower_char(a@[j]) == lower_char(b@[j]),
        decreases alen - i,
    {
        let ca = a.get_char(i);
        let cb = b.get_char(i);
        let la = lower_char_exec(ca);
        let lb = lower_char_exec(cb);
        if la != lb {
            proof {
                assert(lower_seq(a@)[i as int] != lower_seq(b@)[i as int]);
            }
            return false;
        }
        i = i + 1;
    }
    proof {
        assert(lower_seq(a@) =~= lower_seq(b@));
    }
    true
}

/// Lowering leaves a sequence without ASCII uppercase letters unchanged.
proof fn lemma_lower_ascii_id(s: Seq<char>)
    requires
        forall|i: int| 0 <= i < s.len() ==> !(65 <= (#[trigger] s[i]) as u32 <= 90),
    ensures
        lower_seq(s) == s,
{
    assert(lower_seq(s) =~= s);
}

/// The language a request names, matched ASCII-case-insensitively against the
/// known names and their aliases; every other name is `Unspecified`.
pub open spec fn spec_parse_language(s: Seq<char>) -> Language {
    let l = lower_seq(s);
    if l == "python"@ {
        Language::Python
    } else if l == "javascript"@ {
        Language::Javascript
    } else if l == "typescript"@ {
        Language::Typescript
    } else if l == "rust"@ {
        Language::Rust
    } else if l == "go"@ {
        Language::Go
    } else if l == "java"@ {
        Language::Java
    } else if l == "cpp"@ || l == "c++"@ {
        Language::Cpp
    } else if l == "csharp"@ || l == "c#"@ {
        Language::Csharp
    } else if l == "ruby"@ {
        Language::Ruby
    } else if l == "php"@ {
        Language::Php
    } else if l == "shell"@ || l == "bash"@ || l == "sh"@ {
        Language::Shell
    } else {
        Language::Unspecified
    }
}

proof fn reveal_language_names()
    ensures
        lower_seq("python"@) == "python"@,
        lower_seq("javascript"@) == "javascript"@,
        lower_seq("typescript"@) == "typescript"@,
        lower_seq("rust"@) == "rust"@,
        lower_seq("go"@) == "go"@,
        lower_seq("java"@) == "java"@,
        lower_seq("cpp"@) == "cpp"@,
        lower_seq("c++"@) == "c++"@,
        lower_seq("csharp"@) == "csharp"@,
        lower_seq("c#"@) == "c#"@,
        lower_seq("ruby"@) == "ruby"@,
        lower_seq("php"@) == "php"@,
        lower_seq("shell"@) == "shell"@,
        lower_seq("bash"@) == "bash"@,
        lower_seq("sh"@) == "sh"@,
{
    reveal_strlit("python");
    reveal_strlit("javascript");
    reveal_strlit("typescript");
    reveal_strlit("rust");
    reveal_strlit("go");
    reveal_strlit("java");
    reveal_strlit("cpp");
    reveal_strlit("c++");
    reveal_strlit("csharp");
    reveal_strlit("c#");
    reveal_strlit("ruby");
    reveal_strlit("php");
    reveal_strlit("shell");
    reveal_strlit("bash");
    reveal_strlit("sh");
    lemma_lower_ascii_id("python"@);
    lemma_lower_ascii_id("javascript"@);
    lemma_lower_ascii_id("typescript"@);
    lemma_lower_ascii_id("rust"@);
    lemma_lower_ascii_id("go"@);
    lemma_lower_ascii_id("java"@);
    lemma_lower_ascii_id("cpp"@);
    lemma_lower_ascii_id("c++"@);
    lemma_lower_ascii_id("csharp"@);
    lemma_lower_ascii_id("c#"@);
    lemma_lower_ascii_id("ruby"@);
    lemma_lower_ascii_id("php"@);
    lemma_lower_ascii_id("shell"@);
    lemma_lower_ascii_id("bash"@);
    lemma_lower_ascii_id("sh"@);
}

/// Parse a language name, ASCII-case-insensitively.
pub fn parse_language(s: &str) -> (r: Language)
    ensures
        r == spec_parse_language(s@),
{
    proof {
        reveal_language_names();
    }
    if eq_ignore_case(s, "python") {
        Language::Python
    } else if eq_ignore_case(s, "javascript") {
        Language::Javascript
    } else if eq_ignore_case(s, "typescript") {
        Language::Typescript
    } else if eq_ignore_case(s, "rust") {
        Language::Rust
    } else if eq_ignore_case(s, "go") {
        Language::Go
    } else if eq_ignore_case(s, "java") {
        Language::Java
    } else if eq_ignore_case(s, "cpp") || eq_ignore_case(s, "c++") {
        Language::Cpp
    } else if eq_ignore_case(s, "csharp") || eq_ignore_case(s, "c#") {
        Language::Csharp
    } else if eq_ignore_case(s, "ruby") {
        Language::Ruby
    } else if eq_ignore_case(s, "php") {
        Language::Php
    } else if eq_ignore_case(s, "shell") || eq_ignore_case(s, "bash") || eq_ignore_case(s, "sh") {
        Language::Shell
    } else {
        Language::Unspecified
    }
}

/// The canonical name of each language: the lowercase name that parses back
/// to it.
pub open spec fn spec_canonical_name(l: Language) -> Seq<char> {
    match l {
        Language::Unspecified => "unspecified"@,
        Language::Python => "python"@,
        Language::Javascript => "javascript"@,
        Language::Typescript => "typescript"@,
        Language::Rust => "rust"@,
        Language::Go => "go"@,
        Language::Java => "java"@,
        Language::Cpp => "cpp"@,
        Language::Csharp => "csharp"@,
        Language::Ruby => "ruby"@,
        Language::Php => "php"@,
        Language::Shell => "shell"@,
    }
}

/// The canonical name of a language as an owned string.
pub fn canonical_name(l: Language) -> (r: String)
    ensures
        r@ == spec_canonical_name(l),
{
    match l {
        Language::Unspecified => String::from_str("unspecified"),
        Language::Python => String::from_str("python"),
        Language::Javascript => String::from_str("javascript"),
        Language::Typescript => String::from_str("typescript"),
        Language::Rust => String::from_str("rust"),
        Language::Go => String::from_str("go"),
        Language::Java => String::from_str("java"),
        Language::Cpp => String::from_str("cpp"),
        Language::Csharp => String::from_str("csharp"),
        Language::Ruby => String::from_str("ruby"),
        Language::Php => String::from_str("php"),
        Language::Shell => String::from_str("shell"),
    }
}

/// The backend wire enum code of each language.
pub open spec fn spec_language_code(l: Language) -> i32 {
    match l {
        Language::Unspecified => 0,
        Language::Python => 1,
        Language::Javascript => 2,
        Language::Typescript => 3,
        Language::Rust => 4,
        Language::Go => 5,
        Language::Java => 6,
        Language::Cpp => 7,
        Language::Csharp => 8,
        Language::Ruby => 9,
        Language::Php => 10,
        Language::Shell => 11,
    }
}

/// The backend wire enum code of a language.
pub fn language_code(l: Language) -> (r: i32)
    ensures
        r == spec_language_code(l),
{
    match l {
        Language::Unspecified => 0,
        Language::Python => 1,
        Language::Javascript => 2,
        Language::Typescript => 3,
        Language::Rust => 4,
        Language::Go => 5,
        Language::Java => 6,
        Language::Cpp => 7,
        Language::Csharp => 8,
        Language::Ruby => 9,
        Language::Php => 10,
        Language::Shell => 11,
    }
}

/// The language a wire enum code names, or `None` for a code outside the
/// enum.
pub open spec fn spec_language_of_code(c: i32) -> Option<Language> {
    if c == 0 {
        Some(Language::Unspecified)
    } else if c == 1 {
        Some(Language::Python)
    } else if c == 2 {
        Some(Language::Javascript)
    } else if c == 3 {
        Some(Language::Typescript)
    } else if c == 4 {
        Some(Language::Rust)
    } else if c == 5 {
        Some(Language::Go)
    } else if c == 6 {
        Some(Language::Java)
    } else if c == 7 {
        Some(Language::Cpp)
    } else if c == 8 {
        Some(Language::Csharp)
    } else if c == 9 {
        Some(Language::Ruby)
    } else if c == 10 {
        Some(Language::Php)
    } else if c == 11 {
        Some(Language::Shell)
    } else {
        None
    }
}

/// Decode a wire enum code back to a language.
pub fn language_of_code(c: i32) -> (r: Option<Language>)
    ensures
        r == spec_language_of_code(c),
{
    if c == 0 {
        Some(Language::Unspecified)
    } else if c == 1 {
        Some(Language::Python)
    } else if c == 2 {
        Some(Language::Javascript)
    } else if c == 3 {
        Some(Language::Typescript)
    } else if c == 4 {
        Some(Language::Rust)
    } else if c == 5 {
        Some(Language::Go)
    } else if c == 6 {
        Some(Language::Java)
    } else if c == 7 {
        Some(Language::Cpp)
    } else if c == 8 {
        Some(Language::Csharp)
    } else if c == 9 {
        Some(Language::Ruby)
    } else if c == 10 {
        Some(Language::Php)
    } else if c == 11 {
        Some(Language::Shell)
    } else {
        None
    }
}

/// Round trip of the language mapping: the canonical name of each of the
/// eleven supported languages parses back to that language, and the wire code
/// round-trips the same way.
pub proof fn lemma_language_round_trip(l: Language)
    requires
        l != Language::Unspecified,
    ensures
        spec_parse_language(spec_canonical_name(l)) == l,
        spec_language_of_code(spec_language_code(l)) == Some(l),
{
    reveal_language_names();
    reveal_strlit("python");
    reveal_strlit("javascript");
    reveal_strlit("typescript");
    reveal_strlit("rust");
    reveal_strlit("go");
    reveal_strlit("java");
    reveal_strlit("cpp");
    reveal_strlit("c++");
    reveal_strlit("csharp");
    reveal_strlit("c#");
    reveal_strlit("ruby");
    reveal_strlit("php");
    reveal_strlit("shell");
    reveal_strlit("bash");
    reveal_strlit("sh");
    assert("typescript"@ != "javascript"@) by {
        assert("typescript"@[0] == 't');
        assert("javascript"@[0] == 'j');
    }
    assert("csharp"@ != "python"@) by {
        assert("csharp"@[0] == 'c');
        assert("python"@[0] == 'p');
    }
    assert("java"@ != "rust"@) by {
        assert("java"@[0] == 'j');
        assert("rust"@[0] == 'r');
    }
    assert("ruby"@ != "rust"@) by {
        assert("ruby"@[2] == 'b');
        assert("rust"@[2] == 's');
    }
    assert("ruby"@ != "java"@) by {
        assert("ruby"@[0] == 'r');
        assert("java"@[0] == 'j');
    }
    assert("php"@ != "cpp"@) by {
        assert("php"@[0] == 'p');
        assert("cpp"@[0] == 'c');
    }
    assert("php"@ != "c++"@) by {
        assert("php"@[0] == 'p');
        assert("c++"@[0] == 'c');
    }
    match l {
        Language::Unspecified => {
        },
        Language::Python => {
            assert(spec_parse_language(spec_canonical_name(l)) == l);
        },
        Language::Javascript => {
            assert(spec_parse_language(spec_canonical_name(l)) == l);
        },
        Language::Typescript => {
            assert(spec_parse_language(spec_canonical_name(l)) == l);
        },
        Language::Rust => {
            assert(spec_parse_language(spec_canonical_name(l)) == l);
        },
        Language::Go => {
            assert(spec_parse_language(spec_canonical_name(l)) == l);
        },
        Language::Java => {
            assert(spec_parse_language(spec_canonical_name(l)) == l);
        },
        Language::Cpp => {
            assert(spec_parse_language(spec_canonical_name(l)) == l);
        },
        Language::Csharp => {
            assert(spec_parse_language(spec_canonical_name(l)) == l);
        },
        Language::Ruby => {
            assert(spec_parse_language(spec_canonical_name(l)) == l);
        },
        Language::Php => {
            assert(spec_parse_language(spec_canonical_name(l)) == l);
        },
        Language::Shell => {
            assert(spec_parse_language(spec_canonical_name(l)) == l);
        },
    }
}

} // verus!

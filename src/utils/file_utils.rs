//! Target selection by file name, and the banner and footer around the
//! generated text.

use vstd::prelude::*;
use vstd::string::StrSliceExecFns;
use vstd::string::StringExecFns;

use crate::languages::language_factory::{language_of, LanguageType};

verus! {

/// What follows the last `.` of a file name; the whole name when it has none.
pub open spec fn extension_of(s: Seq<char>) -> Seq<char>
    decreases s.len(),
{
    if s.len() == 0 {
        s
    } else if s.last() == '.' {
        Seq::empty()
    } else {
        extension_of(s.drop_last()).push(s.last())
    }
}

/// The target language named by a file name's extension.
pub fn get_language_from_file_name(file_name: &str) -> (r: Option<LanguageType>)
    ensures
        r == language_of(extension_of(file_name@)),
{
    let ghost s = file_name@;
    let n = file_name.unicode_len();
    let mut i: usize = n;
    assert(s.take(n as int) =~= s);
    assert(s.subrange(n as int, n as int) =~= Seq::<char>::empty());
    while i > 0 && file_name.get_char(i - 1) != '.'
        invariant
            s == file_name@,
            n == s.len(),
            i <= n,
            extension_of(s) == extension_of(s.take(i as int)) + s.subrange(i as int, n as int),
        decreases i,
    {
        proof {
            assert(s.take(i as int).drop_last() =~= s.take(i - 1));
            assert(s.subrange(i - 1, n as int) =~= seq![s[i - 1]] + s.subrange(i as int, n as int));
            assert(extension_of(s.take(i - 1)).push(s[i - 1]) + s.subrange(i as int, n as int)
                =~= extension_of(s.take(i - 1)) + s.subrange(i - 1, n as int));
        }
        i = i - 1;
    }
    assert(extension_of(s.take(i as int)) =~= Seq::<char>::empty());
    assert(extension_of(s) =~= s.subrange(i as int, n as int));
    let ext = file_name.substring_char(i, n);
    LanguageType::from_tag(ext)
}

/// Turns each two-character escape `\n` into a line break.
pub open spec fn unescape_newlines(s: Seq<char>) -> Seq<char>
    decreases s.len(),
{
    if s.len() == 0 {
        s
    } else if s.len() >= 2 && s[0] == '\\' && s[1] == 'n' {
        seq!['\n'] + unescape_newlines(s.skip(2))
    } else {
        seq![s[0]] + unescape_newlines(s.skip(1))
    }
}

fn unescape_string(text: &str) -> (r: String)
    ensures
        r@ == unescape_newlines(text@),
{
    let ghost s = text@;
    let n = text.unicode_len();
    let mut out = String::new();
    let mut i: usize = 0;
    assert(s.subrange(0, n as int) =~= s);
    assert(out@ + unescape_newlines(s) =~= unescape_newlines(s));
    while i < n
        invariant
            s == text@,
            n == s.len(),
            i <= n,
            out@ + unescape_newlines(s.subrange(i as int, n as int)) == unescape_newlines(s),
        decreases n - i,
    {
        let rest = Ghost(s.subrange(i as int, n as int));
        if i + 1 < n && text.get_char(i) == '\\' && text.get_char(i + 1) == 'n' {
            proof {
                reveal_strlit("\n");
                assert(rest@.skip(2) =~= s.subrange(i + 2, n as int));
            }
            out.append("\n");
            i = i + 2;
        } else {
            let one = text.substring_char(i, i + 1);
            proof {
                assert(rest@.skip(1) =~= s.subrange(i + 1, n as int));
                assert(one@ =~= seq![rest@[0]]);
            }
            out.append(one);
            i = i + 1;
        }
        proof {
            assert(out@ + unescape_newlines(s.subrange(i as int, n as int)) =~= unescape_newlines(
                s,
            ));
        }
    }
    assert(s.subrange(n as int, n as int) =~= Seq::<char>::empty());
    out
}

/// The banner as written before the generated text: escapes turned into
/// line breaks and, when anything is left, a line break after it.
pub open spec fn banner_text(val: Option<String>) -> Seq<char> {
    match val {
        None => Seq::empty(),
        Some(s) => if unescape_newlines(s@).len() > 0 {
            unescape_newlines(s@) + "\n"@
        } else {
            Seq::empty()
        },
    }
}

/// The footer as written after the generated text: escapes turned into line
/// breaks and, when anything is left, a line break before it.
pub open spec fn footer_text(val: Option<String>) -> Seq<char> {
    match val {
        None => Seq::empty(),
        Some(s) => if unescape_newlines(s@).len() > 0 {
            "\n"@ + unescape_newlines(s@)
        } else {
            Seq::empty()
        },
    }
}

/// The banner to write before the generated text.
pub fn parse_banner(val: &Option<String>) -> (r: String)
    ensures
        r@ == banner_text(*val),
{
    match val {
        None => String::new(),
        Some(s) => {
            let mut banner = unescape_string(s.as_str());
            if banner.as_str().unicode_len() > 0 {
                banner.append("\n");
            }
            banner
        },
    }
}

/// The footer to write after the generated text.
pub fn parse_footer(val: &Option<String>) -> (r: String)
    ensures
        r@ == footer_text(*val),
{
    match val {
        None => String::new(),
        Some(s) => {
            let footer = unescape_string(s.as_str());
            if footer.as_str().unicode_len() > 0 {
                let mut text = String::from_str("\n");
                text.append(footer.as_str());
                text
            } else {
                footer
            }
        },
    }
}

} // verus!

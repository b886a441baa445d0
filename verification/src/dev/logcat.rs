//! The lines of `adb logcat` that the app printed, made readable: the date
//! and time in grey, then the message, with a leading `[scope]` in yellow.
use vstd::prelude::*;
use crate::text::{chars_of, find, find_chars, find_from, push_chars, suffix};

verus! {

/// The tag of the lines that the app printed.
pub open spec fn app_tag() -> Seq<char> {
    "RustStdoutStderr"@
}

/// The marker of a noisy graphics line that is left out.
pub open spec fn noise_marker() -> Seq<char> {
    "s_glBindAttribLocation"@
}

/// What precedes the app's message on its lines.
pub open spec fn message_marker() -> Seq<char> {
    "I RustStdoutStderr: "@
}

/// The message part `rest` of a line as it is shown: a leading `[scope]`
/// (up to the first `]`) in yellow, the rest as it is.
pub open spec fn message_display(rest: Seq<char>) -> Seq<char> {
    if rest.len() > 0 && rest[0] == '[' && find(rest, "]"@) is Some {
        let end = find(rest, "]"@)->0;
        "\x1b[33m"@ + rest.subrange(0, end + 1) + "\x1b[0m"@ + rest.subrange(end + 1, rest.len() as int)
    } else {
        rest
    }
}

/// A message is coloured only when it begins with `[`: any other message
/// is shown unchanged. A message that begins with `[` and holds a `]` is
/// shown as its scope, up to and including the first `]`, in yellow,
/// followed by the rest unchanged; without a `]` it is shown unchanged.
pub proof fn law_scope_only_after_bracket(rest: Seq<char>)
    ensures
        rest.len() == 0 || rest[0] != '[' ==> message_display(rest) == rest,
        (forall|j: int| 0 <= j < rest.len() ==> rest[j] != ']') ==> message_display(rest) == rest,
        forall|e: int|
            #![trigger rest[e]]
            0 <= e < rest.len() && rest.len() > 0 && rest[0] == '[' && rest[e] == ']' && (forall|j: int|
                0 <= j < e ==> rest[j] != ']') ==> message_display(rest) == "\x1b[33m"@ + rest.subrange(0, e + 1)
                + "\x1b[0m"@ + rest.subrange(e + 1, rest.len() as int),
{
    reveal_strlit("]");
    let close = "]"@;
    crate::text::lemma_find_from(rest, close, 0);
    assert forall|e: int|
        #![trigger rest[e]]
        0 <= e < rest.len() && rest.len() > 0 && rest[0] == '[' && rest[e] == ']' && (forall|j: int|
            0 <= j < e ==> rest[j] != ']') implies message_display(rest) == "\x1b[33m"@ + rest.subrange(0, e + 1)
            + "\x1b[0m"@ + rest.subrange(e + 1, rest.len() as int) by {
        assert(rest.subrange(e, e + 1) =~= close);
        assert(crate::text::matches_at(rest, close, e));
        match find(rest, close) {
            Some(f) => {
                if f < e {
                    assert(rest.subrange(f, f + 1)[0] == ']');
                }
            },
            None => {},
        }
    }
    if forall|j: int| 0 <= j < rest.len() ==> rest[j] != ']' {
        match find(rest, close) {
            Some(f) => {
                assert(rest.subrange(f, f + 1)[0] == ']');
            },
            None => {},
        }
    }
}

/// How a logcat line is shown, or `None` when it is not shown: it must
/// hold the app's tag and not the graphics noise; its date and time are
/// what precedes the second space, and its message follows the first
/// `I RustStdoutStderr: ` after them.
pub open spec fn logcat_display(line: Seq<char>) -> Option<Seq<char>> {
    if find(line, app_tag()) is None || find(line, noise_marker()) is Some {
        None
    } else {
        match find(line, " "@) {
            None => None,
            Some(date_end) => match find_from(line, " "@, date_end + 1) {
                None => None,
                Some(datetime_end) => match find_from(line, message_marker(), datetime_end + 1) {
                    None => None,
                    Some(marker) => {
                        let begin = marker + message_marker().len();
                        Some(
                            "\x1b[37m"@ + line.subrange(0, datetime_end) + "\x1b[0m "@ + message_display(
                                line.subrange(begin, line.len() as int),
                            ),
                        )
                    },
                },
            },
        }
    }
}

/// Listens to one line of the logs and prettifies it: the text to print for
/// it, or `None` when it is not shown.
pub fn format_log_line(line: &str) -> (shown: Option<String>)
    ensures
        shown matches Some(s) ==> logcat_display(line@) == Some(s@),
        shown is None ==> logcat_display(line@) is None,
{
    let chars = chars_of(line);
    let s = chars.as_slice();
    let n = s.len();
    let tag = chars_of("RustStdoutStderr");
    let noise = chars_of("s_glBindAttribLocation");
    let space = chars_of(" ");
    let marker = chars_of("I RustStdoutStderr: ");
    proof {
        reveal_strlit("I RustStdoutStderr: ");
        reveal_strlit(" ");
        reveal_strlit("]");
    }
    if find_chars(s, tag.as_slice(), 0).is_none() || find_chars(s, noise.as_slice(), 0).is_some() {
        return None;
    }
    let date_end = match find_chars(s, space.as_slice(), 0) {
        Some(i) => i,
        None => return None,
    };
    proof {
        crate::text::lemma_find_from(s@, space@, 0);
    }
    let datetime_end = match find_chars(s, space.as_slice(), date_end + 1) {
        Some(i) => i,
        None => return None,
    };
    proof {
        crate::text::lemma_find_from(s@, space@, date_end + 1);
    }
    let found = match find_chars(s, marker.as_slice(), datetime_end + 1) {
        Some(i) => i,
        None => return None,
    };
    proof {
        crate::text::lemma_find_from(s@, marker@, datetime_end + 1);
    }
    let begin = found + marker.len();
    let mut out = String::from_str("\x1b[37m");
    push_chars(&mut out, s, 0, datetime_end);
    out.append("\x1b[0m ");
    let ghost head = out@;
    let rest_chars = suffix(s, begin);
    let rest = rest_chars.as_slice();
    let close = chars_of("]");
    if rest.len() > 0 && rest[0] == '[' {
        match find_chars(rest, close.as_slice(), 0) {
            Some(end) => {
                proof {
                    crate::text::lemma_find_from(rest@, close@, 0);
                }
                out.append("\x1b[33m");
                push_chars(&mut out, rest, 0, end + 1);
                out.append("\x1b[0m");
                push_chars(&mut out, rest, end + 1, rest.len());
                assert(out@ =~= head + message_display(rest@));
            },
            None => {
                push_chars(&mut out, rest, 0, rest.len());
                assert(rest@.subrange(0, rest@.len() as int) =~= rest@);
            },
        }
    } else {
        push_chars(&mut out, rest, 0, rest.len());
        assert(rest@.subrange(0, rest@.len() as int) =~= rest@);
    }
    Some(out)
}

} // verus!

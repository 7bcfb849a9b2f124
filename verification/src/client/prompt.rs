//! What the user is asked, and how the answers are read.
use vstd::prelude::*;

use crate::messages;
use crate::messages::{CertificateInfo, CertificateView, ConfigView, ConnectionConfig};
use crate::text;
use crate::views;

verus! {

/// A text of at most `max_len` characters: a longer one is cut, and ends in dots
/// where there is room for them.
pub open spec fn truncated(s: Seq<char>, max_len: int) -> Seq<char> {
    if s.len() <= max_len {
        s
    } else if max_len > 3 {
        s.take(max_len - 3) + "..."@
    } else {
        s.take(max_len)
    }
}

/// A text of at most `max_len` characters.
pub fn truncate_string(s: &str, max_len: usize) -> (t: String)
    ensures
        t@ == truncated(s@, max_len as int),
{
    let chars = text::chars_of(s);
    if chars.len() <= max_len {
        s.to_owned()
    } else if max_len > 3 {
        let mut t = text::text_to(chars.as_slice(), max_len - 3);
        t.push_str("...");
        t
    } else {
        text::text_to(chars.as_slice(), max_len)
    }
}

/// A cut text is no longer than it may be, and a short one is not cut.
pub proof fn law_truncated_text_fits(s: Seq<char>, max_len: int)
    requires
        0 <= max_len,
    ensures
        truncated(s, max_len).len() <= max_len,
        s.len() <= max_len ==> truncated(s, max_len) == s,
        s.len() > max_len ==> truncated(s, max_len).len() == max_len,
{
    reveal_strlit("...");
}

/// Spaces.
pub open spec fn spaces(n: int) -> Seq<char> {
    Seq::new(
        if n > 0 {
            n as nat
        } else {
            0
        },
        |i: int| ' ',
    )
}

/// A text filled up with spaces.
pub open spec fn padded(s: Seq<char>, width: int) -> Seq<char> {
    s + spaces(width - s.len())
}

/// Appends a text, filled up with spaces.
fn push_padded(out: &mut String, s: &str, width: usize)
    ensures
        final(out)@ == old(out)@ + padded(s@, width as int),
{
    out.push_str(s);
    let ghost start = out@;
    let len: usize = text::chars_of(s).len();
    let mut n: usize = len;
    assert(out@ == start + spaces(n - len));
    while n < width
        invariant
            len == s@.len(),
            len <= n,
            n <= width || n == len,
            start == old(out)@ + s@,
            out@ == start + spaces(n - len),
        decreases width - n,
    {
        out.push(' ');
        n = n + 1;
        assert(out@ == start + spaces(n - len));
    }
    assert(out@ == old(out)@ + padded(s@, width as int)) by {
        if width < len {
            assert(spaces(width - len) == spaces(0));
        }
    }
}

/// A line without a carriage return at its end.
pub open spec fn without_return(s: Seq<char>) -> Seq<char> {
    if s.len() > 0 && s.last() == '\r' {
        s.drop_last()
    } else {
        s
    }
}

/// The lines of a text: what stands before each line feed, without a carriage
/// return, and what stands behind the last one.
pub open spec fn text_lines(s: Seq<char>) -> Seq<Seq<char>>
    decreases s.len(),
    via text_lines_shrink
{
    if s.len() == 0 {
        Seq::empty()
    } else {
        match s.index_of_first('\n') {
            Some(i) => seq![without_return(s.take(i))] + text_lines(s.skip(i + 1)),
            None => seq![s],
        }
    }
}

#[via_fn]
proof fn text_lines_shrink(s: Seq<char>) {
    s.index_of_first_ensures('\n');
}

/// A line in the frame.
pub open spec fn framed(line: Seq<char>) -> Seq<char> {
    "│ "@ + padded(line, 63) + " │"@
}

/// Lines in the frame.
pub open spec fn framed_all(lines: Seq<Seq<char>>) -> Seq<Seq<char>> {
    Seq::new(lines.len(), |i: int| framed(lines[i]))
}

/// The question whether a certificate is accepted, line by line.
pub open spec fn certificate_question(server: Seq<char>, c: CertificateView) -> Seq<Seq<char>> {
    seq![
        Seq::<char>::empty(),
        "┌─────────────────────────────────────────────────────────────────┐"@,
        "│ Unknown certificate from "@ + padded(truncated(server, 38), 38) + " │"@,
        "├─────────────────────────────────────────────────────────────────┤"@,
    ] + framed_all(text_lines(messages::certificate_text(c))) + seq![
        "├─────────────────────────────────────────────────────────────────┤"@,
        "│ Accept this certificate? [y/N]                                  │"@,
        "└─────────────────────────────────────────────────────────────────┘"@,
    ]
}

/// The lines of a text, each in the frame.
fn frame_lines(s: &str) -> (lines: Vec<String>)
    ensures
        views::seq_view(lines@) == framed_all(text_lines(s@)),
{
    let chars = text::chars_of(s);
    let mut lines: Vec<String> = Vec::new();
    let mut start: usize = 0;
    let ghost all = framed_all(text_lines(s@));
    assert(s@.skip(0) == s@);
    assert(views::seq_view(lines@) + framed_all(text_lines(s@)) == all);
    while start < chars.len()
        invariant
            start <= chars@.len(),
            chars@ == s@,
            views::seq_view(lines@) + framed_all(text_lines(s@.skip(start as int))) == all,
        decreases chars@.len() - start,
    {
        let ghost rest = s@.skip(start as int);
        let ghost lines_before = lines@;
        let found = text::first_place(&chars[start..chars.len()], '\n');
        assert(chars@.subrange(start as int, chars@.len() as int) == rest);
        let (end, next): (usize, usize) = match found {
            Some(i) => {
                if i > 0 && chars[start + i - 1] == '\r' {
                    (start + i - 1, start + i + 1)
                } else {
                    (start + i, start + i + 1)
                }
            },
            None => (chars.len(), chars.len()),
        };
        let line = text::string_of(&chars[start..end]);
        let mut framed_line = "│ ".to_owned();
        push_padded(&mut framed_line, line.as_str(), 63);
        framed_line.push_str(" │");
        proof {
            rest.index_of_first_ensures('\n');
            let ghost_line = match found {
                Some(i) => without_return(rest.take(i as int)),
                None => rest,
            };
            assert(line@ == ghost_line);
            assert(framed_line@ == framed(ghost_line));
            views::lemma_seq_view_push(lines@, framed_line);
            let more = s@.skip(next as int);
            if let Some(i) = found {
                assert(rest.skip(i + 1) == more);
            }
            assert(text_lines(rest) =~= seq![ghost_line] + text_lines(more)) by {
                if found is None {
                    assert(more.len() == 0);
                }
            }
            assert(framed_all(text_lines(rest)) =~= seq![framed(ghost_line)] + framed_all(
                text_lines(more),
            ));
            assert(views::seq_view(lines_before).push(framed_line@) + framed_all(text_lines(more))
                =~= views::seq_view(lines_before) + framed_all(text_lines(rest)));
        }
        lines.push(framed_line);
        start = next;
    }
    assert(s@.skip(start as int).len() == 0);
    assert(framed_all(text_lines(s@.skip(start as int))) =~= Seq::<Seq<char>>::empty());
    assert(views::seq_view(lines@) =~= all);
    lines
}

/// The question whether a certificate is accepted, line by line.
pub fn certificate_prompt(server: &str, cert_info: &CertificateInfo) -> (lines: Vec<String>)
    requires
        messages::cuttable(cert_info@.fingerprint),
    ensures
        views::seq_view(lines@) == certificate_question(server@, cert_info@),
{
    let mut head = "│ Unknown certificate from ".to_owned();
    let shown = truncate_string(server, 38);
    push_padded(&mut head, shown.as_str(), 38);
    head.push_str(" │");
    let display = cert_info.display();
    let mut middle = frame_lines(display.as_str());
    let ghost framed_middle = views::seq_view(middle@);
    let ghost middle_before = middle@;
    let mut lines: Vec<String> = Vec::new();
    lines.push(String::new());
    lines.push("┌─────────────────────────────────────────────────────────────────┐".to_owned());
    lines.push(head);
    lines.push("├─────────────────────────────────────────────────────────────────┤".to_owned());
    let ghost first = views::seq_view(lines@);
    let ghost first_lines = lines@;
    lines.append(&mut middle);
    assert(lines@ == first_lines + middle_before);
    assert(views::seq_view(lines@) == first + framed_middle);
    let ghost two = views::seq_view(lines@);
    lines.push("├─────────────────────────────────────────────────────────────────┤".to_owned());
    lines.push("│ Accept this certificate? [y/N]                                  │".to_owned());
    lines.push("└─────────────────────────────────────────────────────────────────┘".to_owned());
    assert(views::seq_view(lines@) == certificate_question(server@, cert_info@)) by {
        assert(first =~= certificate_question(server@, cert_info@).take(4));
        assert(views::seq_view(lines@) =~= two + seq![
            "├─────────────────────────────────────────────────────────────────┤"@,
            "│ Accept this certificate? [y/N]                                  │"@,
            "└─────────────────────────────────────────────────────────────────┘"@,
        ]);
    }
    lines
}

/// An answer in lower case, without white space at its ends, that accepts.
pub open spec fn consents(answer: Seq<char>) -> bool {
    answer == "y"@ || answer == "yes"@
}

/// Tests whether an answer in lower case, without white space at its ends, accepts.
pub fn is_consent(answer: &str) -> (b: bool)
    ensures
        b == consents(answer@),
{
    text::same_text(answer, "y") || text::same_text(answer, "yes")
}

/// Tests whether what the user typed accepts.
pub fn read_consent(typed: &str) -> (b: bool)
    ensures
        b == consents(text::lowercased(text::trimmed(typed@))),
        b == typed_consent(typed@),
{
    let trimmed = text::trim_text(typed);
    let answer = text::lowercase_text(trimmed.as_str());
    is_consent(answer.as_str())
}

/// Whether what was typed agrees, in upper or lower case and with white space around
/// it.
pub open spec fn typed_consent(typed: Seq<char>) -> bool {
    consents(text::lowercased(text::trimmed(typed)))
}

/// The question for the password.
pub open spec fn password_question(c: ConfigView) -> Seq<char> {
    match (c.username, c.domain) {
        (Some(user), Some(domain)) => "Password for "@ + domain + "\\"@ + user + ": "@,
        (Some(user), None) => "Password for "@ + user + ": "@,
        _ => "Password: "@,
    }
}

/// The question for the password.
pub fn password_prompt(config: &ConnectionConfig) -> (s: String)
    ensures
        s@ == password_question(config@),
{
    let mut s = String::new();
    match (&config.username, &config.domain) {
        (Some(user), Some(domain)) => {
            s.push_str("Password for ");
            s.push_str(domain.as_str());
            s.push_str("\\");
            s.push_str(user.as_str());
            s.push_str(": ");
        },
        (Some(user), None) => {
            s.push_str("Password for ");
            s.push_str(user.as_str());
            s.push_str(": ");
        },
        _ => {
            s.push_str("Password: ");
        },
    }
    s
}

/// Tests whether a password may be used, and says what is wrong with it where it
/// may not.
pub fn check_password(password: &str) -> (r: Result<(), &'static str>)
    ensures
        r is Ok <==> password@.len() > 0,
        r matches Err(e) ==> e@ == "Password cannot be empty"@,
{
    if password.is_empty() {
        Err("Password cannot be empty")
    } else {
        Ok(())
    }
}

/// The text between the first `@` and the next one or the end, or `Unknown` where
/// there is no `@`: in the title of a window, the server.
pub open spec fn server_in_title(title: Seq<char>) -> Seq<char> {
    match title.index_of_first('@') {
        Some(i) => {
            let rest = title.skip(i + 1);
            match rest.index_of_first('@') {
                Some(j) => rest.take(j),
                None => rest,
            }
        },
        None => "Unknown"@,
    }
}

/// The server in the title of a window.
pub fn server_name(title: &str) -> (s: String)
    ensures
        s@ == server_in_title(title@),
{
    let chars = text::chars_of(title);
    assert(chars.len() == chars@.len());
    proof {
        title@.index_of_first_ensures('@');
    }
    match text::first_place(chars.as_slice(), '@') {
        Some(i) => {
            let rest = text::text_from(chars.as_slice(), i + 1);
            let rest_chars = text::chars_of(rest.as_str());
            match text::first_place(rest_chars.as_slice(), '@') {
                Some(j) => text::text_to(rest_chars.as_slice(), j),
                None => rest,
            }
        },
        None => "Unknown".to_owned(),
    }
}

/// A text that is cut is its beginning, and says by three dots that it was cut where
/// there is room for them.
pub proof fn law_cut_text_is_a_beginning(s: Seq<char>, max_len: int)
    requires
        0 <= max_len < s.len(),
    ensures
        max_len > 3 ==> truncated(s, max_len).take(max_len - 3) == s.take(max_len - 3)
            && truncated(s, max_len).skip(max_len - 3) == seq!['.', '.', '.'],
        max_len <= 3 ==> truncated(s, max_len) == s.take(max_len),
{
    reveal_strlit("...");
    if max_len > 3 {
        assert(truncated(s, max_len).take(max_len - 3) =~= s.take(max_len - 3));
        assert(truncated(s, max_len).skip(max_len - 3) =~= seq!['.', '.', '.']);
    }
}

/// A line in the frame begins behind the left border and is filled with spaces up to
/// the right border; lines of up to 63 characters have the same length, 67.
pub proof fn law_line_is_framed(line: Seq<char>)
    ensures
        framed(line).subrange(2, 2 + line.len() as int) == line,
        framed(line)[0] == '│' && framed(line)[1] == ' ',
        framed(line).last() == '│' && framed(line)[framed(line).len() - 2] == ' ',
        line.len() <= 63 ==> framed(line).len() == 67,
        forall|i: int| 2 + line.len() <= i < framed(line).len() - 1 ==> framed(line)[i] == ' ',
{
    reveal_strlit("│ ");
    reveal_strlit(" │");
    assert(framed(line).subrange(2, 2 + line.len() as int) =~= line);
}

/// The question shows the lines of the certificate, in their order and framed, under
/// the name of the server, and ends by asking.
pub proof fn law_question_shows_certificate(server: Seq<char>, c: CertificateView, i: int)
    requires
        0 <= i < text_lines(messages::certificate_text(c)).len(),
    ensures
        ({
            let shown = certificate_question(server, c);
            let lines = text_lines(messages::certificate_text(c));
            &&& shown.len() == lines.len() + 7
            &&& shown[4 + i] == framed(lines[i])
            &&& text::occurs(shown[2], truncated(server, 38))
            &&& server.len() <= 38 ==> text::occurs(shown[2], server)
            &&& "│ Accept this certificate? [y/N]"@.is_prefix_of(shown[shown.len() - 2])
        }),
{
    let shown = certificate_question(server, c);
    let s = truncated(server, 38);
    let before = "│ Unknown certificate from "@;
    let after = spaces(38 - s.len()) + " │"@;
    text::law_part_occurs(before, s, after);
    assert(shown[2] =~= before + s + after);
    reveal_strlit("│ Accept this certificate? [y/N]");
    reveal_strlit("│ Accept this certificate? [y/N]                                  │");
    let asked = "│ Accept this certificate? [y/N]                                  │"@;
    assert(shown[shown.len() - 2] == asked);
    assert(asked.subrange(0, "│ Accept this certificate? [y/N]"@.len() as int)
        =~= "│ Accept this certificate? [y/N]"@);
}

/// A text is cut into lines at its line feeds, and a carriage return in front of one
/// belongs to it.
pub proof fn law_text_is_cut_into_lines(line: Seq<char>, rest: Seq<char>)
    requires
        !line.contains('\n'),
    ensures
        text_lines(line + seq!['\n'] + rest) == seq![without_return(line)] + text_lines(rest),
        line.len() > 0 ==> text_lines(line) == seq![line],
        text_lines(Seq::empty()) == Seq::<Seq<char>>::empty(),
        line.len() > 0 && line.last() == '\r' ==> without_return(line) == line.drop_last(),
        line.len() > 0 && line.last() != '\r' ==> without_return(line) == line,
{
    let whole = line + seq!['\n'] + rest;
    let n = line.len() as int;
    assert(whole[n] == '\n');
    assert(whole.contains('\n'));
    whole.index_of_first_ensures('\n');
    line.index_of_first_ensures('\n');
    let i = whole.index_of_first('\n')->0;
    assert(i == n) by {
        if i < n {
            assert(whole[i] == line[i]);
            assert(line.contains(line[i]));
        }
    }
    assert(whole.take(i) =~= line);
    assert(whole.skip(i + 1) =~= rest);
}

/// Only `y` and `yes` agree, and white space around what was typed does not matter.
pub proof fn law_consent_is_explicit(answer: Seq<char>, before: Seq<char>, after: Seq<char>)
    requires
        answer.len() > 0,
        !text::is_white_space(answer[0]),
        !text::is_white_space(answer.last()),
        forall|i: int| 0 <= i < before.len() ==> text::is_white_space(#[trigger] before[i]),
        forall|i: int| 0 <= i < after.len() ==> text::is_white_space(#[trigger] after[i]),
    ensures
        consents(answer) <==> answer == seq!['y'] || answer == seq!['y', 'e', 's'],
        !consents(Seq::empty()),
        typed_consent(before + answer + after) == consents(text::lowercased(answer)),
{
    reveal_strlit("y");
    reveal_strlit("yes");
    assert("y"@ =~= seq!['y']);
    assert("yes"@ =~= seq!['y', 'e', 's']);
    text::law_white_space_is_cut(before, answer, after);
}

/// The user is asked for the password of a user, and of the domain where there is one.
pub proof fn law_password_is_asked_for_user(c: ConfigView)
    ensures
        c.username matches Some(user) ==> messages::says(
            password_question(c),
            "Password for "@,
            match c.domain {
                Some(domain) => domain.push('\\') + user,
                None => user,
            },
            ": "@,
        ),
        c.username is None ==> password_question(c) == "Password: "@,
{
    if c.username is Some {
        let user = c.username->0;
        let who = match c.domain {
            Some(domain) => domain.push('\\') + user,
            None => user,
        };
        messages::lemma_says("Password for "@, who, ": "@);
        reveal_strlit("\\");
        assert(password_question(c) =~= "Password for "@ + who + ": "@);
    }
}

/// The server in the title of a window is what stands behind the first at sign.
pub proof fn law_server_is_found_in_title(before: Seq<char>, server: Seq<char>)
    requires
        !before.contains('@'),
        !server.contains('@'),
    ensures
        server_in_title(before + seq!['@'] + server) == server,
        server_in_title(before) == "Unknown"@,
{
    let title = before + seq!['@'] + server;
    let n = before.len() as int;
    assert(title[n] == '@');
    assert(title.contains('@'));
    title.index_of_first_ensures('@');
    before.index_of_first_ensures('@');
    let i = title.index_of_first('@')->0;
    assert(i == n) by {
        if i < n {
            assert(title[i] == before[i]);
            assert(before.contains(before[i]));
        }
    }
    let rest = title.skip(i + 1);
    assert(rest =~= server);
    rest.index_of_first_ensures('@');
}

} // verus!

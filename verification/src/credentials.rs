//! The initial admin credentials that first-time setup reports.
use vstd::prelude::*;

use crate::path::joined;
use crate::text::{
    lemma_trimmed_push_white, lemma_find_first, chars_of, find_char, find_from, lemma_find_from_bounds, range_equals, trim_range, trimmed,
};

verus! {

/// Login details of the initial admin user.
#[derive(Clone, Debug)]
pub struct SetupCredentials {
    pub username: String,
    pub password: String,
}

impl View for SetupCredentials {
    type V = (Seq<char>, Seq<char>);

    open spec fn view(&self) -> (Seq<char>, Seq<char>) {
        (self.username@, self.password@)
    }
}

pub open spec fn opt_creds_view(c: Option<SetupCredentials>) -> Option<(Seq<char>, Seq<char>)> {
    match c {
        Some(x) => Some(x@),
        None => None,
    }
}

impl SetupCredentials {
    pub fn new(username: String, password: String) -> (r: SetupCredentials)
        ensures
            r.username == username,
            r.password == password,
    {
        SetupCredentials { username, password }
    }

    /// A copy of the credentials.
    pub fn copy(&self) -> (r: SetupCredentials)
        ensures
            r@ == self@,
    {
        SetupCredentials { username: self.username.clone(), password: self.password.clone() }
    }
}

/// The line of setup output that names the admin user; the name follows,
/// closed by `)`.
pub open spec fn user_line_prefix() -> Seq<char> {
    "  [ok] Initial admin user created ("@
}

/// The line of setup output that gives the temporary password.
pub open spec fn password_line_prefix() -> Seq<char> {
    "        Temporary password: "@
}

/// Where the line that starts at `i` ends: before the next `\n`, and before a
/// `\r` that directly precedes that `\n` (as `str::lines` cuts lines).
pub open spec fn line_end(s: Seq<char>, i: int) -> int {
    let j = find_from(s, '\n', i);
    if i < j < s.len() && s[j - 1] == '\r' {
        j - 1
    } else {
        j
    }
}

/// Where the line after the one that starts at `i` starts.
pub open spec fn next_line_start(s: Seq<char>, i: int) -> int {
    let j = find_from(s, '\n', i);
    if j < s.len() {
        j + 1
    } else {
        s.len() as int
    }
}

pub open spec fn has_prefix(line: Seq<char>, prefix: Seq<char>) -> bool {
    line.len() >= prefix.len() && line.take(prefix.len() as int) == prefix
}

/// `rest` without its closing `)`, or `None` when it does not end in one.
pub open spec fn strip_close_paren(rest: Seq<char>) -> Option<Seq<char>> {
    if rest.len() > 0 && rest.last() == ')' {
        Some(rest.drop_last())
    } else {
        None
    }
}

/// What one line of setup output tells about the user name and password seen
/// so far: the user line sets the name (to `None` when it lacks the closing
/// `)`); the password line sets the password, trimmed.
pub open spec fn scan_line(
    acc: (Option<Seq<char>>, Option<Seq<char>>),
    line: Seq<char>,
) -> (Option<Seq<char>>, Option<Seq<char>>) {
    let p1 = user_line_prefix();
    let p2 = password_line_prefix();
    let user = if has_prefix(line, p1) {
        strip_close_paren(line.skip(p1.len() as int))
    } else {
        acc.0
    };
    let pass = if has_prefix(line, p2) {
        Some(trimmed(line.skip(p2.len() as int)))
    } else {
        acc.1
    };
    (user, pass)
}

/// The lines of `s` from position `i` on, scanned in order.
pub open spec fn scan_from(
    s: Seq<char>,
    i: int,
    acc: (Option<Seq<char>>, Option<Seq<char>>),
) -> (Option<Seq<char>>, Option<Seq<char>>)
    decreases s.len() - i,
{
    if i < 0 || i >= s.len() {
        acc
    } else {
        proof {
            lemma_find_from_bounds(s, '\n', i);
        }
        scan_from(s, next_line_start(s, i), scan_line(acc, s.subrange(i, line_end(s, i))))
    }
}

/// The credentials that setup output reports: the user name and the password
/// as the last lines that give them leave them, when both are known.
pub open spec fn spec_parse_setup_credentials(stdout: Seq<char>) -> Option<
    (Seq<char>, Seq<char>),
> {
    match scan_from(stdout, 0, (None, None)) {
        (Some(u), Some(p)) => Some((u, p)),
        _ => None,
    }
}

pub open spec fn opt_string_view(s: Option<String>) -> Option<Seq<char>> {
    match s {
        Some(x) => Some(x@),
        None => None,
    }
}

/// The user name that the line `stdout[i..end]` leaves, `current` if it does
/// not name the user.
fn line_user(
    stdout: &str,
    v: &Vec<char>,
    p1: &Vec<char>,
    i: usize,
    end: usize,
    current: Option<String>,
) -> (r: Option<String>)
    requires
        v@ == stdout@,
        p1@ == user_line_prefix(),
        i <= end <= v@.len(),
    ensures
        opt_string_view(r) == scan_line(
            (opt_string_view(current), None),
            stdout@.subrange(i as int, end as int),
        ).0,
{
    let ghost s = stdout@;
    let ghost line = s.subrange(i as int, end as int);
    if end - i >= p1.len() && range_equals(v, i, i + p1.len(), p1) {
        proof {
            assert(line.take(p1@.len() as int) =~= s.subrange(i as int, i + p1@.len()));
        }
        let start = i + p1.len();
        proof {
            assert(line.skip(p1@.len() as int) =~= s.subrange(start as int, end as int));
        }
        if end > start && v[end - 1] == ')' {
            let name = stdout.substring_char(start, end - 1).to_owned();
            proof {
                assert(s.subrange(start as int, end as int).drop_last() =~= name@);
            }
            Some(name)
        } else {
            None
        }
    } else {
        proof {
            if has_prefix(line, user_line_prefix()) {
                assert(line.take(p1@.len() as int) =~= s.subrange(i as int, i + p1@.len()));
            }
        }
        current
    }
}

/// The password that the line `stdout[i..end]` leaves, `current` if it does
/// not give the password.
fn line_password(
    stdout: &str,
    v: &Vec<char>,
    p2: &Vec<char>,
    i: usize,
    end: usize,
    current: Option<String>,
) -> (r: Option<String>)
    requires
        v@ == stdout@,
        p2@ == password_line_prefix(),
        i <= end <= v@.len(),
    ensures
        opt_string_view(r) == scan_line(
            (None, opt_string_view(current)),
            stdout@.subrange(i as int, end as int),
        ).1,
{
    let ghost s = stdout@;
    let ghost line = s.subrange(i as int, end as int);
    if end - i >= p2.len() && range_equals(v, i, i + p2.len(), p2) {
        proof {
            assert(line.take(p2@.len() as int) =~= s.subrange(i as int, i + p2@.len()));
        }
        let start = i + p2.len();
        let (a, b) = trim_range(v, start, end);
        let pass = stdout.substring_char(a, b).to_owned();
        proof {
            let rest = line.skip(p2@.len() as int);
            assert(rest =~= s.subrange(start as int, end as int));
            assert(trimmed(rest) =~= pass@);
        }
        Some(pass)
    } else {
        proof {
            if has_prefix(line, password_line_prefix()) {
                assert(line.take(p2@.len() as int) =~= s.subrange(i as int, i + p2@.len()));
            }
        }
        current
    }
}

/// Reads the initial admin credentials out of what setup printed.
pub fn parse_setup_credentials(stdout: &str) -> (r: Option<SetupCredentials>)
    ensures
        opt_creds_view(r) == spec_parse_setup_credentials(stdout@),
{
    let v = chars_of(stdout);
    let p1 = chars_of("  [ok] Initial admin user created (");
    let p2 = chars_of("        Temporary password: ");
    let ghost s = stdout@;
    let n = v.len();
    let mut username: Option<String> = None;
    let mut password: Option<String> = None;
    let mut i: usize = 0;
    proof {
        assert(s.subrange(0, n as int) =~= s);
    }
    while i < n
        invariant
            v@ == s,
            s == stdout@,
            n == s.len(),
            s.subrange(0, n as int) == s,
            p1@ == user_line_prefix(),
            p2@ == password_line_prefix(),
            i <= n,
            scan_from(s, i as int, (opt_string_view(username), opt_string_view(password)))
                == scan_from(s, 0, (None, None)),
        decreases n - i,
    {
        let j = find_char(&v, '\n', i, n);
        proof {
            lemma_find_from_bounds(s, '\n', i as int);
        }
        let end = if i < j && j < n && v[j - 1] == '\r' {
            j - 1
        } else {
            j
        };
        let ghost line = s.subrange(i as int, end as int);
        let ghost acc = (opt_string_view(username), opt_string_view(password));
        let user = line_user(stdout, &v, &p1, i, end, username);
        let pass = line_password(stdout, &v, &p2, i, end, password);
        proof {
            assert((opt_string_view(user), opt_string_view(pass)) == scan_line(acc, line));
        }
        username = user;
        password = pass;
        i = if j < n {
            j + 1
        } else {
            n
        };
    }
    match (username, password) {
        (Some(username), Some(password)) => Some(SetupCredentials { username, password }),
        _ => None,
    }
}

/// The credentials after a bundled setup run: those of the credentials file
/// when it gave any, else those that setup printed.
pub fn bundled_setup_credentials(from_file: Option<SetupCredentials>, stdout: &str) -> (r: Option<
    SetupCredentials,
>)
    ensures
        opt_creds_view(r) == match opt_creds_view(from_file) {
            Some(c) => Some(c),
            None => spec_parse_setup_credentials(stdout@),
        },
{
    match from_file {
        Some(c) => Some(c),
        None => parse_setup_credentials(stdout),
    }
}

/// The two lines that first-time setup prints about the admin user.
pub open spec fn setup_report(user: Seq<char>, password: Seq<char>) -> Seq<char> {
    user_line_prefix() + user + ")\n"@ + password_line_prefix() + password + "\n"@
}

/// What setup prints is read back: from the user line and the password line
/// (names and passwords free of line breaks), the credentials are that user
/// and that password, trimmed.
pub proof fn law_setup_report_reads_back(user: Seq<char>, password: Seq<char>)
    requires
        forall|k: int| 0 <= k < user.len() ==> #[trigger] user[k] != '\n',
        forall|k: int| 0 <= k < password.len() ==> #[trigger] password[k] != '\n' && password[k]
            != '\r',
    ensures
        spec_parse_setup_credentials(setup_report(user, password)) == Some((user, trimmed(password))),
{
    reveal_strlit("  [ok] Initial admin user created (");
    reveal_strlit("        Temporary password: ");
    reveal_strlit(")\n");
    reveal_strlit("\n");
    let p1 = user_line_prefix();
    let p2 = password_line_prefix();
    let l1 = p1 + user + seq![')'];
    let l2 = p2 + password;
    let out = setup_report(user, password);
    assert(out =~= l1 + seq!['\n'] + l2 + seq!['\n']);
    let j1 = l1.len() as int;
    let n = out.len() as int;
    assert(n == j1 + 1 + l2.len() + 1);
    assert forall|k: int| 0 <= k < j1 implies out[k] != '\n' by {
        assert(out[k] == l1[k]);
        if k < p1.len() {
            assert(l1[k] == p1[k]);
        } else if k < p1.len() + user.len() {
            assert(l1[k] == user[k - p1.len()]);
        }
    }
    lemma_find_first(out, '\n', 0, j1);
    assert(out[j1 - 1] == ')');
    assert(line_end(out, 0) == j1);
    assert(out.subrange(0, j1) =~= l1);
    assert(next_line_start(out, 0) == j1 + 1);
    let j2 = n - 1;
    assert forall|k: int| j1 + 1 <= k < j2 implies out[k] != '\n' by {
        assert(out[k] == l2[k - j1 - 1]);
        if k - j1 - 1 >= p2.len() {
            assert(l2[k - j1 - 1] == password[k - j1 - 1 - p2.len()]);
        }
    }
    lemma_find_first(out, '\n', j1 + 1, j2);
    assert(out[j2 - 1] != '\r') by {
        assert(out[j2 - 1] == l2[l2.len() - 1]);
        if password.len() > 0 {
            assert(l2[l2.len() - 1] == password[password.len() - 1]);
        }
    }
    assert(line_end(out, j1 + 1) == j2);
    assert(out.subrange(j1 + 1, j2) =~= l2);
    assert(next_line_start(out, j1 + 1) == n);
    // the user line names the user and does not give a password
    assert(l1.take(p1.len() as int) =~= p1);
    assert(l1.skip(p1.len() as int) =~= user + seq![')']);
    assert((user + seq![')']).drop_last() =~= user);
    assert(l1[2] != p2[2]);
    assert(!has_prefix(l1, p2));
    let a1 = scan_line((None, None), l1);
    assert(a1 == (Some(user), None::<Seq<char>>));
    // the password line gives the password and does not name a user
    assert(l2.take(p2.len() as int) =~= p2);
    assert(l2.skip(p2.len() as int) =~= password);
    assert(l2[2] != p1[2]);
    assert(!has_prefix(l2, p1));
    let a2 = scan_line(a1, l2);
    assert(a2 == (Some(user), Some(trimmed(password))));
    assert(scan_from(out, n, a2) == a2);
    assert(scan_from(out, j1 + 1, a1) == scan_from(out, n, a2));
    assert(scan_from(out, 0, (None, None)) == scan_from(out, j1 + 1, a1));
}

/// Both prefixes are non-empty, so an empty line names nothing.
proof fn lemma_prefix_lens()
    ensures
        user_line_prefix().len() > 0,
        password_line_prefix().len() > 0,
{
    reveal_strlit("  [ok] Initial admin user created (");
    reveal_strlit("        Temporary password: ");
}

/// A line with neither prefix, or any of its beginnings, leaves what was
/// read so far unchanged.
proof fn lemma_scan_unrelated(acc: (Option<Seq<char>>, Option<Seq<char>>), x: Seq<char>, e: int)
    requires
        0 <= e <= x.len(),
        !has_prefix(x, user_line_prefix()),
        !has_prefix(x, password_line_prefix()),
    ensures
        scan_line(acc, x.take(e)) == acc,
{
    let line = x.take(e);
    let p1 = user_line_prefix();
    let p2 = password_line_prefix();
    if has_prefix(line, p1) {
        assert(x.take(p1.len() as int) =~= line.take(p1.len() as int));
    }
    if has_prefix(line, p2) {
        assert(x.take(p2.len() as int) =~= line.take(p2.len() as int));
    }
}

proof fn lemma_find_from_skip(s: Seq<char>, c: char, d: int, i: int)
    requires
        0 <= d <= i <= s.len(),
    ensures
        find_from(s, c, i) == d + find_from(s.skip(d), c, i - d),
    decreases s.len() - i,
{
    if i < s.len() && s[i] != c {
        lemma_find_from_skip(s, c, d, i + 1);
    }
}

/// Scanning from a position reads only what follows it.
proof fn lemma_scan_skip(
    s: Seq<char>,
    d: int,
    i: int,
    acc: (Option<Seq<char>>, Option<Seq<char>>),
)
    requires
        0 <= d <= i <= s.len(),
    ensures
        scan_from(s, i, acc) == scan_from(s.skip(d), i - d, acc),
    decreases s.len() - i,
{
    let t = s.skip(d);
    if i < s.len() {
        lemma_find_from_skip(s, '\n', d, i);
        lemma_find_from_bounds(s, '\n', i);
        let j = find_from(s, '\n', i);
        let e = line_end(s, i);
        assert(line_end(t, i - d) == e - d);
        assert(s.subrange(i, e) =~= t.subrange(i - d, e - d));
        assert(next_line_start(t, i - d) == next_line_start(s, i) - d);
        lemma_scan_skip(s, d, next_line_start(s, i), scan_line(acc, s.subrange(i, e)));
    }
}

/// A text without line breaks and with neither prefix tells nothing.
proof fn lemma_scan_unrelated_text(x: Seq<char>, acc: (Option<Seq<char>>, Option<Seq<char>>))
    requires
        forall|k: int| 0 <= k < x.len() ==> #[trigger] x[k] != '\n',
        !has_prefix(x, user_line_prefix()),
        !has_prefix(x, password_line_prefix()),
    ensures
        scan_from(x, 0, acc) == acc,
{
    if x.len() > 0 {
        lemma_find_from_bounds(x, '\n', 0);
        assert(find_from(x, '\n', 0) == x.len());
        assert(line_end(x, 0) == x.len());
        assert(next_line_start(x, 0) == x.len());
        assert(x.subrange(0, x.len() as int) =~= x.take(x.len() as int));
        lemma_scan_unrelated(acc, x, x.len() as int);
        assert(scan_from(x, x.len() as int, acc) == acc);
    }
}

/// A first line with neither prefix, followed by a line break, changes
/// nothing.
proof fn lemma_scan_drop_first_line(
    x: Seq<char>,
    w: Seq<char>,
    acc: (Option<Seq<char>>, Option<Seq<char>>),
)
    requires
        forall|k: int| 0 <= k < x.len() ==> #[trigger] x[k] != '\n',
        !has_prefix(x, user_line_prefix()),
        !has_prefix(x, password_line_prefix()),
    ensures
        scan_from(x + seq!['\n'] + w, 0, acc) == scan_from(w, 0, acc),
{
    let s = x + seq!['\n'] + w;
    let n = x.len() as int;
    assert forall|k: int| 0 <= k < n implies s[k] != '\n' by {
        assert(s[k] == x[k]);
    }
    lemma_find_first(s, '\n', 0, n);
    let e = line_end(s, 0);
    assert(s.subrange(0, e) =~= x.take(e));
    lemma_scan_unrelated(acc, x, e);
    assert(next_line_start(s, 0) == n + 1);
    lemma_scan_skip(s, n + 1, n + 1, acc);
    assert(s.skip(n + 1) =~= w);
}

/// Text after a final line break of `pre` is read the same way whenever the
/// two tails are.
proof fn lemma_scan_common_prefix(
    pre: Seq<char>,
    t1: Seq<char>,
    t2: Seq<char>,
    i: int,
    acc: (Option<Seq<char>>, Option<Seq<char>>),
)
    requires
        pre.len() > 0,
        pre.last() == '\n',
        0 <= i <= pre.len(),
        forall|c: (Option<Seq<char>>, Option<Seq<char>>)|
            #[trigger] scan_from(t1, 0, c) == scan_from(t2, 0, c),
    ensures
        scan_from(pre + t1, i, acc) == scan_from(pre + t2, i, acc),
    decreases pre.len() - i,
{
    let s1 = pre + t1;
    let s2 = pre + t2;
    let n = pre.len() as int;
    if i == n {
        lemma_scan_skip(s1, n, n, acc);
        lemma_scan_skip(s2, n, n, acc);
        assert(s1.skip(n) =~= t1);
        assert(s2.skip(n) =~= t2);
        assert(scan_from(t1, 0, acc) == scan_from(t2, 0, acc));
    } else {
        lemma_find_from_bounds(pre, '\n', i);
        let j = find_from(pre, '\n', i);
        if j == n {
            assert(pre[n - 1] != '\n');
        }
        assert forall|k: int| i <= k < j implies s1[k] != '\n' && s2[k] != '\n' by {
            assert(s1[k] == pre[k]);
            assert(s2[k] == pre[k]);
        }
        lemma_find_first(s1, '\n', i, j);
        lemma_find_first(s2, '\n', i, j);
        if i < j {
            assert(s1[j - 1] == pre[j - 1]);
            assert(s2[j - 1] == pre[j - 1]);
        }
        let e = line_end(s1, i);
        assert(line_end(s2, i) == e);
        assert(s1.subrange(i, e) =~= s2.subrange(i, e));
        lemma_scan_common_prefix(pre, t1, t2, j + 1, scan_line(acc, s1.subrange(i, e)));
    }
}

/// A user line that ends in `)` followed by a carriage return: `str::lines`
/// keeps that carriage return on a last line, and then the name is not
/// closed by `)`.
pub open spec fn user_line_cut_by_cr(l: Seq<char>) -> bool {
    &&& has_prefix(l, user_line_prefix())
    &&& l.len() >= 2
    &&& l[l.len() - 2] == ')'
    &&& l.last() == '\r'
}

/// A line ending in a carriage return reads the same without it, unless it
/// is a user line cut that way.
proof fn lemma_scan_line_cr(acc: (Option<Seq<char>>, Option<Seq<char>>), l: Seq<char>)
    requires
        l.len() > 0,
        l.last() == '\r',
        !user_line_cut_by_cr(l),
    ensures
        scan_line(acc, l.drop_last()) == scan_line(acc, l),
{
    reveal_strlit("  [ok] Initial admin user created (");
    reveal_strlit("        Temporary password: ");
    let p1 = user_line_prefix();
    let p2 = password_line_prefix();
    let m = l.drop_last();
    assert(p1.last() == '(');
    assert(p2.last() == ' ');
    if has_prefix(l, p1) {
        assert(l.len() > p1.len());
        assert(m.take(p1.len() as int) =~= l.take(p1.len() as int));
        let rest = l.skip(p1.len() as int);
        assert(rest.last() == '\r');
        assert(m.skip(p1.len() as int) =~= rest.drop_last());
        if rest.len() >= 2 {
            assert(rest.drop_last().last() == l[l.len() - 2]);
        }
    } else if has_prefix(m, p1) {
        assert(m.take(p1.len() as int) =~= l.take(p1.len() as int));
    }
    if has_prefix(l, p2) {
        assert(l.len() > p2.len());
        assert(m.take(p2.len() as int) =~= l.take(p2.len() as int));
        let rest = l.skip(p2.len() as int);
        assert(rest =~= m.skip(p2.len() as int).push('\r'));
        lemma_trimmed_push_white(m.skip(p2.len() as int), '\r');
    } else if has_prefix(m, p2) {
        assert(m.take(p2.len() as int) =~= l.take(p2.len() as int));
    }
}

/// A line `x` with neither prefix after a last line `l` changes nothing,
/// unless `l` is a user line cut by a carriage return (which `x` would make
/// whole again).
proof fn lemma_scan_last_line(
    l: Seq<char>,
    x: Seq<char>,
    acc: (Option<Seq<char>>, Option<Seq<char>>),
)
    requires
        forall|k: int| 0 <= k < l.len() ==> #[trigger] l[k] != '\n',
        forall|k: int| 0 <= k < x.len() ==> #[trigger] x[k] != '\n',
        !has_prefix(x, user_line_prefix()),
        !has_prefix(x, password_line_prefix()),
        !user_line_cut_by_cr(l),
    ensures
        scan_from(l + seq!['\n'] + x, 0, acc) == scan_from(l, 0, acc),
{
    let s = l + seq!['\n'] + x;
    let n = l.len() as int;
    lemma_prefix_lens();
    assert forall|k: int| 0 <= k < n implies s[k] != '\n' by {
        assert(s[k] == l[k]);
    }
    lemma_find_first(s, '\n', 0, n);
    let e = line_end(s, 0);
    assert(next_line_start(s, 0) == n + 1);
    let acc2 = scan_line(acc, s.subrange(0, e));
    lemma_scan_skip(s, n + 1, n + 1, acc2);
    assert(s.skip(n + 1) =~= x);
    lemma_scan_unrelated_text(x, acc2);
    assert(scan_from(s, 0, acc) == acc2);
    if n == 0 {
        assert(s.subrange(0, e) =~= Seq::<char>::empty());
        assert(scan_line(acc, Seq::<char>::empty()) == acc);
    } else {
        lemma_find_from_bounds(l, '\n', 0);
        assert(find_from(l, '\n', 0) == n);
        assert(line_end(l, 0) == n);
        assert(next_line_start(l, 0) == n);
        assert(l.subrange(0, n) =~= l);
        assert(scan_from(l, n, scan_line(acc, l)) == scan_line(acc, l));
        assert(scan_from(l, 0, acc) == scan_line(acc, l));
        assert(s[n - 1] == l[n - 1]);
        if l[n - 1] == '\r' {
            assert(s.subrange(0, e) =~= l.drop_last());
            lemma_scan_line_cr(acc, l);
        } else {
            assert(s.subrange(0, e) =~= l);
        }
    }
}

/// Joining two non-empty lists of lines puts a line break between them.
proof fn lemma_joined_concat(a: Seq<Seq<char>>, b: Seq<Seq<char>>)
    requires
        a.len() > 0,
        b.len() > 0,
    ensures
        joined(a + b, '\n') == joined(a, '\n') + seq!['\n'] + joined(b, '\n'),
    decreases b.len(),
{
    let l = a + b;
    if b.len() == 1 {
        assert(l.drop_last() =~= a);
        assert(l.last() == b[0]);
        assert(joined(l, '\n') =~= joined(a, '\n') + seq!['\n'] + joined(b, '\n'));
    } else {
        assert(l.drop_last() =~= a + b.drop_last());
        lemma_joined_concat(a, b.drop_last());
        assert(l.last() == b.last());
        assert(joined(l, '\n') =~= joined(a, '\n') + seq!['\n'] + joined(b, '\n'));
    }
}

/// Output lines that name neither the user nor the password never change
/// the credentials read: inserting such a line `x` between the lines `a`
/// and `b` leaves the result as it was. The one exception is a new last
/// line after a user line that ends in `)` and a carriage return: `str::lines`
/// then strips that carriage return, and the name it closes counts, so the
/// law is stated where `b` is not empty or the last line of `a` is not such
/// a line.
pub proof fn law_unrelated_lines_ignored(a: Seq<Seq<char>>, x: Seq<char>, b: Seq<Seq<char>>)
    requires
        forall|i: int, k: int| 0 <= i < a.len() && 0 <= k < a[i].len() ==> #[trigger] a[i][k] != '\n',
        forall|i: int, k: int| 0 <= i < b.len() && 0 <= k < b[i].len() ==> #[trigger] b[i][k] != '\n',
        forall|k: int| 0 <= k < x.len() ==> #[trigger] x[k] != '\n',
        !has_prefix(x, user_line_prefix()),
        !has_prefix(x, password_line_prefix()),
        b.len() > 0 || a.len() == 0 || !user_line_cut_by_cr(a.last()),
    ensures
        spec_parse_setup_credentials(joined(a + seq![x] + b, '\n'))
            == spec_parse_setup_credentials(joined(a + b, '\n')),
{
    let none: (Option<Seq<char>>, Option<Seq<char>>) = (None, None);
    assert(joined(seq![x], '\n') == x);
    if b.len() > 0 {
        let t1 = joined(seq![x] + b, '\n');
        let t2 = joined(b, '\n');
        lemma_joined_concat(seq![x], b);
        assert forall|c: (Option<Seq<char>>, Option<Seq<char>>)|
            #[trigger] scan_from(t1, 0, c) == scan_from(t2, 0, c) by {
            lemma_scan_drop_first_line(x, t2, c);
        }
        if a.len() == 0 {
            assert(a + seq![x] + b =~= seq![x] + b);
            assert(a + b =~= b);
        } else {
            assert(a + seq![x] + b =~= a + (seq![x] + b));
            lemma_joined_concat(a, seq![x] + b);
            lemma_joined_concat(a, b);
            let pre = joined(a, '\n') + seq!['\n'];
            assert(joined(a + seq![x] + b, '\n') =~= pre + t1);
            assert(joined(a + b, '\n') =~= pre + t2);
            lemma_scan_common_prefix(pre, t1, t2, 0, none);
        }
    } else {
        assert(a + b =~= a);
        if a.len() == 0 {
            assert(a + seq![x] + b =~= seq![x]);
            lemma_scan_unrelated_text(x, none);
        } else {
            let l = a.last();
            assert forall|k: int| 0 <= k < l.len() implies #[trigger] l[k] != '\n' by {
                assert(a[a.len() - 1][k] != '\n');
            }
            assert(a + seq![x] + b =~= a + seq![x]);
            lemma_joined_concat(a, seq![x]);
            if a.len() == 1 {
                assert(joined(a, '\n') == l);
                lemma_scan_last_line(l, x, none);
            } else {
                let a0 = a.drop_last();
                assert(a =~= a0 + seq![l]);
                lemma_joined_concat(a0, seq![l]);
                assert(joined(seq![l], '\n') == l);
                let pre = joined(a0, '\n') + seq!['\n'];
                let t1 = l + seq!['\n'] + x;
                assert(joined(a + seq![x] + b, '\n') =~= pre + t1);
                assert(joined(a + b, '\n') =~= pre + l);
                assert forall|c: (Option<Seq<char>>, Option<Seq<char>>)|
                    #[trigger] scan_from(t1, 0, c) == scan_from(l, 0, c) by {
                    lemma_scan_last_line(l, x, c);
                }
                lemma_scan_common_prefix(pre, t1, l, 0, none);
            }
        }
    }
}

} // verus!

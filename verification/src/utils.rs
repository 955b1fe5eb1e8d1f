use vstd::prelude::*;

verus! {

/// Character-level equality of two string slices.
pub fn str_eq(a: &str, b: &str) -> (r: bool)
    ensures
        r == (a@ == b@),
{
    let sa = a.to_owned();
    let sb = b.to_owned();
    sa.eq(&sb)
}

/// The decimal digit text of a single digit value.
pub open spec fn digit_text(d: int) -> Seq<char> {
    if d == 0 {
        "0"@
    } else if d == 1 {
        "1"@
    } else if d == 2 {
        "2"@
    } else if d == 3 {
        "3"@
    } else if d == 4 {
        "4"@
    } else if d == 5 {
        "5"@
    } else if d == 6 {
        "6"@
    } else if d == 7 {
        "7"@
    } else if d == 8 {
        "8"@
    } else {
        "9"@
    }
}

/// The decimal text of a natural number, most significant digit first.
pub open spec fn decimal_text(n: int) -> Seq<char>
    decreases n,
{
    if n < 10 {
        digit_text(n)
    } else {
        decimal_text(n / 10) + digit_text(n % 10)
    }
}

fn digit_str(d: u64) -> (r: &'static str)
    requires
        d < 10,
    ensures
        r@ == digit_text(d as int),
{
    if d == 0 {
        "0"
    } else if d == 1 {
        "1"
    } else if d == 2 {
        "2"
    } else if d == 3 {
        "3"
    } else if d == 4 {
        "4"
    } else if d == 5 {
        "5"
    } else if d == 6 {
        "6"
    } else if d == 7 {
        "7"
    } else if d == 8 {
        "8"
    } else {
        "9"
    }
}

/// Renders a number in decimal, for the elapsed-time column of the report.
pub fn u64_string(n: u64) -> (r: String)
    ensures
        r@ == decimal_text(n as int),
    decreases n,
{
    if n < 10 {
        String::from_str(digit_str(n))
    } else {
        u64_string(n / 10).concat(digit_str(n % 10))
    }
}


/// The command line handed to the shell: the program alone, or the
/// program and its argument separated by one space.
pub open spec fn command_line_spec(program: Seq<char>, arg: Seq<char>) -> Seq<char> {
    if arg.len() == 0 {
        program
    } else {
        program + " "@ + arg
    }
}

pub fn command_line(program: &str, arg: &str) -> (r: String)
    ensures
        r@ == command_line_spec(program@, arg@),
{
    if arg.is_empty() {
        String::from_str(program)
    } else {
        let r = String::from_str(program).concat(" ").concat(arg);
        proof {
            assert(r@ =~= program@ + " "@ + arg@);
        }
        r
    }
}

/// One entry of the interactive menu.
#[derive(Ord, PartialOrd, Eq, PartialEq, Debug, Clone, Hash, Copy, Structural)]
pub enum ZenOption {
    Quit,
    Add,
    Edit,
    Commit,
    Health,
    Log,
    Diff,
    Email,
    Status,
    ListTags,
}

impl ZenOption {
    /// Every menu option, in menu order.
    pub fn all() -> (r: Vec<ZenOption>)
        ensures
            r@ == seq![
                ZenOption::Quit,
                ZenOption::Add,
                ZenOption::Edit,
                ZenOption::Commit,
                ZenOption::Health,
                ZenOption::Log,
                ZenOption::Diff,
                ZenOption::Email,
                ZenOption::Status,
                ZenOption::ListTags,
            ],
    {
        let mut r: Vec<ZenOption> = Vec::new();
        r.push(ZenOption::Quit);
        r.push(ZenOption::Add);
        r.push(ZenOption::Edit);
        r.push(ZenOption::Commit);
        r.push(ZenOption::Health);
        r.push(ZenOption::Log);
        r.push(ZenOption::Diff);
        r.push(ZenOption::Email);
        r.push(ZenOption::Status);
        r.push(ZenOption::ListTags);
        proof {
            assert(r@ =~= seq![
                ZenOption::Quit,
                ZenOption::Add,
                ZenOption::Edit,
                ZenOption::Commit,
                ZenOption::Health,
                ZenOption::Log,
                ZenOption::Diff,
                ZenOption::Email,
                ZenOption::Status,
                ZenOption::ListTags,
            ]);
        }
        r
    }

    /// The label the menu shows for the option.
    pub open spec fn label_spec(option: ZenOption) -> Seq<char> {
        match option {
            ZenOption::Quit => "Quit"@,
            ZenOption::Add => "Add"@,
            ZenOption::Health => "Health"@,
            ZenOption::Log => "Log"@,
            ZenOption::Diff => "Diff"@,
            ZenOption::Email => "Email"@,
            ZenOption::ListTags => "List Tags"@,
            ZenOption::Status => "Status"@,
            ZenOption::Edit => "Editor"@,
            ZenOption::Commit => "Commit"@,
        }
    }

    pub fn label(&self) -> (r: &'static str)
        ensures
            r@ == ZenOption::label_spec(*self),
    {
        match self {
            ZenOption::Quit => "Quit",
            ZenOption::Add => "Add",
            ZenOption::Health => "Health",
            ZenOption::Log => "Log",
            ZenOption::Diff => "Diff",
            ZenOption::Email => "Email",
            ZenOption::ListTags => "List Tags",
            ZenOption::Status => "Status",
            ZenOption::Edit => "Editor",
            ZenOption::Commit => "Commit",
        }
    }
}

/// The menu option that a name denotes; an unknown name means quitting.
pub open spec fn zen_of_name(s: Seq<char>) -> ZenOption {
    if s == "Add"@ {
        ZenOption::Add
    } else if s == "Health"@ {
        ZenOption::Health
    } else if s == "Log"@ {
        ZenOption::Log
    } else if s == "Diff"@ {
        ZenOption::Diff
    } else if s == "Email"@ {
        ZenOption::Email
    } else if s == "ListTags"@ {
        ZenOption::ListTags
    } else if s == "Status"@ {
        ZenOption::Status
    } else if s == "Editor"@ {
        ZenOption::Edit
    } else if s == "Commit"@ {
        ZenOption::Commit
    } else {
        ZenOption::Quit
    }
}

impl From<&str> for ZenOption {
    fn from(value: &str) -> (r: ZenOption) {
        if str_eq(value, "Add") {
            return ZenOption::Add;
        }
        if str_eq(value, "Health") {
            return ZenOption::Health;
        }
        if str_eq(value, "Log") {
            return ZenOption::Log;
        }
        if str_eq(value, "Diff") {
            return ZenOption::Diff;
        }
        if str_eq(value, "Email") {
            return ZenOption::Email;
        }
        if str_eq(value, "ListTags") {
            return ZenOption::ListTags;
        }
        if str_eq(value, "Status") {
            return ZenOption::Status;
        }
        if str_eq(value, "Editor") {
            return ZenOption::Edit;
        }
        if str_eq(value, "Commit") {
            return ZenOption::Commit;
        }
        ZenOption::Quit
    }
}

impl vstd::std_specs::convert::FromSpecImpl<&str> for ZenOption {
    open spec fn obeys_from_spec() -> bool {
        true
    }

    open spec fn from_spec(value: &str) -> ZenOption {
        zen_of_name(value@)
    }
}


/// An ASCII letter.
pub open spec fn ascii_letter(c: char) -> bool {
    (('a' as u32) <= (c as u32) && (c as u32) <= ('z' as u32)) || (('A' as u32) <= (c as u32) && (
    c as u32) <= ('Z' as u32))
}

/// An ASCII digit.
pub open spec fn ascii_digit(c: char) -> bool {
    ('0' as u32) <= (c as u32) && (c as u32) <= ('9' as u32)
}

/// A character allowed in the part of an address before the `@`.
pub open spec fn local_char(c: char) -> bool {
    ascii_letter(c) || ascii_digit(c) || c == '.' || c == '_' || c == '+' || c == '-'
}

/// A character allowed in a domain label.
pub open spec fn label_char(c: char) -> bool {
    ascii_letter(c) || ascii_digit(c) || c == '-'
}

/// A valid address domain: one or more dot-terminated labels of label
/// characters, then a top-level domain of at least two letters.
pub open spec fn valid_domain(d: Seq<char>) -> bool {
    exists|k: int|
        {
            &&& 0 < k < d.len()
            &&& #[trigger] d[k] == '.'
            &&& d.len() - k - 1 >= 2
            &&& (forall|m: int| k < m < d.len() ==> ascii_letter(#[trigger] d[m]))
            &&& (forall|m: int| 0 <= m < k ==> (label_char(#[trigger] d[m]) || d[m] == '.'))
            &&& d[0] != '.'
            &&& d[k - 1] != '.'
            &&& (forall|m: int| 0 <= m < k - 1 ==> !(#[trigger] d[m] == '.' && d[m + 1] == '.'))
        }
}

/// A valid address: a nonempty run of local characters, one `@`, and a
/// valid domain.
pub open spec fn valid_email(s: Seq<char>) -> bool {
    exists|at: int|
        {
            &&& 0 < at < s.len()
            &&& #[trigger] s[at] == '@'
            &&& (forall|j: int| 0 <= j < at ==> local_char(#[trigger] s[j]))
            &&& valid_domain(s.skip(at + 1))
        }
}

fn char_is_letter(c: char) -> (r: bool)
    ensures
        r == ascii_letter(c),
{
    (c >= 'a' && c <= 'z') || (c >= 'A' && c <= 'Z')
}

fn char_is_local(c: char) -> (r: bool)
    ensures
        r == local_char(c),
{
    (c >= 'a' && c <= 'z') || (c >= 'A' && c <= 'Z') || (c >= '0' && c <= '9') || c == '.' || c
        == '_' || c == '+' || c == '-'
}

fn char_is_label(c: char) -> (r: bool)
    ensures
        r == label_char(c),
{
    (c >= 'a' && c <= 'z') || (c >= 'A' && c <= 'Z') || (c >= '0' && c <= '9') || c == '-'
}

fn find_last_dot(s: &str, from: usize, n: usize) -> (r: Option<usize>)
    requires
        n == s@.len(),
        from <= n,
    ensures
        (r matches Some(k) ==> from <= k < n && s@[k as int] == '.' && (forall|j: int|
            k < j < n ==> s@[j] != '.')),
        (r is None ==> forall|j: int| from <= j < n ==> s@[j] != '.'),
{
    let mut has_dot = false;
    let mut last_dot: usize = 0;
    let mut m: usize = from;
    while m < n
        invariant
            n == s@.len(),
            from <= m <= n,
            has_dot ==> from <= last_dot < m && s@[last_dot as int] == '.',
            has_dot ==> forall|j: int| last_dot < j < m ==> s@[j] != '.',
            !has_dot ==> forall|j: int| from <= j < m ==> s@[j] != '.',
        decreases n - m,
    {
        if s.get_char(m) == '.' {
            last_dot = m;
            has_dot = true;
        }
        m = m + 1;
    }
    if has_dot {
        Some(last_dot)
    } else {
        None
    }
}

fn all_letters(s: &str, from: usize, to: usize) -> (r: bool)
    requires
        to <= s@.len(),
        from <= to,
    ensures
        r == (forall|j: int| from <= j < to ==> ascii_letter(#[trigger] s@[j])),
{
    let mut m: usize = from;
    while m < to
        invariant
            to <= s@.len(),
            from <= m <= to,
            forall|j: int| from <= j < m ==> ascii_letter(#[trigger] s@[j]),
        decreases to - m,
    {
        if !char_is_letter(s.get_char(m)) {
            return false;
        }
        m = m + 1;
    }
    true
}

fn labels_ok(s: &str, from: usize, to: usize) -> (r: bool)
    requires
        to <= s@.len(),
        from <= to,
    ensures
        r == ((forall|j: int| from <= j < to ==> (label_char(#[trigger] s@[j]) || s@[j] == '.'))
            && (forall|j: int|
            from <= j < to - 1 ==> !(#[trigger] s@[j] == '.' && s@[j + 1] == '.'))),
{
    let mut m: usize = from;
    while m < to
        invariant
            to <= s@.len(),
            from <= m <= to,
            forall|j: int| from <= j < m ==> (label_char(#[trigger] s@[j]) || s@[j] == '.'),
            forall|j: int| from <= j < m - 1 ==> !(#[trigger] s@[j] == '.' && s@[j + 1] == '.'),
        decreases to - m,
    {
        let c = s.get_char(m);
        if !(char_is_label(c) || c == '.') {
            return false;
        }
        if c == '.' && m > from {
            if s.get_char(m - 1) == '.' {
                return false;
            }
        }
        m = m + 1;
    }
    true
}

/// Whether `s@.skip(start)` is a valid address domain.
fn check_domain(s: &str, start: usize, n: usize) -> (r: bool)
    requires
        n == s@.len(),
        start <= n,
    ensures
        r == valid_domain(s@.skip(start as int)),
{
    let ghost d = s@.skip(start as int);
    proof {
        assert forall|j: int| 0 <= j < d.len() implies #[trigger] d[j] == s@[start + j] by {}
    }
    let found = find_last_dot(s, start, n);
    let last_dot: usize;
    match found {
        None => {
            proof {
                assert forall|k: int| !(0 < k < d.len() && #[trigger] d[k] == '.') by {
                    if 0 < k < d.len() {
                        assert(d[k] == s@[start + k]);
                    }
                }
            }
            return false;
        },
        Some(k) => {
            last_dot = k;
        },
    }
    let ghost kk = last_dot - start as int;
    proof {
        assert(d[kk] == s@[last_dot as int]);
        // The last dot is the only candidate split: a witness below it would
        // need the last dot to be a letter, and there is no dot above it.
        assert forall|k: int|
            0 < k < d.len() && #[trigger] d[k] == '.' && (forall|m2: int|
                k < m2 < d.len() ==> ascii_letter(#[trigger] d[m2])) implies k == kk by {
            if k < kk {
                assert(ascii_letter(d[kk]));
            }
            if k > kk {
                assert(d[k] == s@[start + k]);
            }
        }
    }
    if n - last_dot - 1 < 2 {
        return false;
    }
    if !all_letters(s, last_dot + 1, n) {
        proof {
            let j = choose|j: int|
                last_dot + 1 <= j < n && !ascii_letter(#[trigger] s@[j]);
            assert(d[j - start] == s@[j]);
            if valid_domain(d) {
                let k = choose|k: int|
                    {
                        &&& 0 < k < d.len()
                        &&& #[trigger] d[k] == '.'
                        &&& d.len() - k - 1 >= 2
                        &&& (forall|m2: int| k < m2 < d.len() ==> ascii_letter(#[trigger] d[m2]))
                        &&& (forall|m2: int|
                            0 <= m2 < k ==> (label_char(#[trigger] d[m2]) || d[m2] == '.'))
                        &&& d[0] != '.'
                        &&& d[k - 1] != '.'
                        &&& (forall|m2: int|
                            0 <= m2 < k - 1 ==> !(#[trigger] d[m2] == '.' && d[m2 + 1] == '.'))
                    };
                assert(k == kk);
                assert(ascii_letter(d[j - start]));
            }
        }
        return false;
    }
    proof {
        assert forall|m2: int| kk < m2 < d.len() implies ascii_letter(#[trigger] d[m2]) by {
            assert(d[m2] == s@[start + m2]);
        }
    }
    if last_dot == start {
        return false;
    }
    if s.get_char(start) == '.' {
        proof {
            assert(d[0] == s@[start as int]);
        }
        return false;
    }
    if s.get_char(last_dot - 1) == '.' {
        proof {
            assert(d[kk - 1] == s@[last_dot as int - 1]);
        }
        return false;
    }
    if !labels_ok(s, start, last_dot) {
        proof {
            if valid_domain(d) {
                let k = choose|k: int|
                    {
                        &&& 0 < k < d.len()
                        &&& #[trigger] d[k] == '.'
                        &&& d.len() - k - 1 >= 2
                        &&& (forall|m2: int| k < m2 < d.len() ==> ascii_letter(#[trigger] d[m2]))
                        &&& (forall|m2: int|
                            0 <= m2 < k ==> (label_char(#[trigger] d[m2]) || d[m2] == '.'))
                        &&& d[0] != '.'
                        &&& d[k - 1] != '.'
                        &&& (forall|m2: int|
                            0 <= m2 < k - 1 ==> !(#[trigger] d[m2] == '.' && d[m2 + 1] == '.'))
                    };
                assert(k == kk);
                if !(forall|j: int|
                    start <= j < last_dot ==> (label_char(#[trigger] s@[j]) || s@[j] == '.')) {
                    let j = choose|j: int|
                        start <= j < last_dot && !(label_char(#[trigger] s@[j]) || s@[j] == '.');
                    assert(d[j - start] == s@[j]);
                } else {
                    let j = choose|j: int|
                        start <= j < last_dot - 1 && (#[trigger] s@[j] == '.' && s@[j + 1] == '.');
                    assert(d[j - start] == s@[j]);
                    assert(d[j - start + 1] == s@[j + 1]);
                }
            }
        }
        return false;
    }
    proof {
        assert(d[0] == s@[start as int]);
        assert(d[kk - 1] == s@[last_dot as int - 1]);
        assert forall|m2: int| 0 <= m2 < kk implies (label_char(#[trigger] d[m2]) || d[m2]
            == '.') by {
            assert(d[m2] == s@[start + m2]);
        }
        assert forall|m2: int| 0 <= m2 < kk - 1 implies !(#[trigger] d[m2] == '.' && d[m2 + 1]
            == '.') by {
            assert(d[m2] == s@[start + m2]);
            assert(d[m2 + 1] == s@[start + m2 + 1]);
        }
        assert(valid_domain(d)) by {
            assert(0 < kk < d.len() && d[kk] == '.');
        }
    }
    true
}

/// Validates addresses for the interactive prompts.
#[derive(Clone)]
pub struct EmailValidator;

impl EmailValidator {
    /// Checks the address shape: a nonempty local part, `@`, dot-separated
    /// labels and a top-level domain of at least two letters.
    pub fn validate(&self, input: &str) -> (r: bool)
        ensures
            r == valid_email(input@),
    {
        let n = input.unicode_len();
        let mut i: usize = 0;
        while i < n
            invariant
                n == input@.len(),
                i <= n,
                forall|j: int| 0 <= j < i ==> local_char(#[trigger] input@[j]),
                forall|j: int| 0 <= j < i ==> input@[j] != '@',
            decreases n - i,
        {
            let c = input.get_char(i);
            if c == '@' {
                if i == 0 {
                    return false;
                }
                let ok = check_domain(input, i + 1, n);
                proof {
                    if ok {
                        assert(valid_email(input@)) by {
                            assert(input@[i as int] == '@' && valid_domain(
                                input@.skip(i as int + 1),
                            ));
                        }
                    } else {
                        assert forall|at: int|
                            !(0 < at < input@.len() && #[trigger] input@[at] == '@' && (
                            forall|j: int| 0 <= j < at ==> local_char(#[trigger] input@[j]))
                                && valid_domain(input@.skip(at + 1))) by {
                            if 0 < at < input@.len() && input@[at] == '@' {
                                if at < i {
                                    assert(input@[at] != '@');
                                } else if at > i {
                                    assert(!local_char('@'));
                                }
                            }
                        }
                    }
                }
                return ok;
            }
            if !char_is_local(c) {
                proof {
                    assert forall|at: int|
                        !(0 < at < input@.len() && #[trigger] input@[at] == '@' && (forall|
                            j: int,
                        | 0 <= j < at ==> local_char(#[trigger] input@[j]))) by {
                        if 0 < at < input@.len() && input@[at] == '@' {
                            if at <= i {
                                assert(input@[at] != '@');
                            } else {
                                assert(!local_char(input@[i as int]));
                            }
                        }
                    }
                }
                return false;
            }
            i = i + 1;
        }
        false
    }
}


/// Character-level lexicographic order on texts, by code point.
pub open spec fn lex_le(a: Seq<char>, b: Seq<char>) -> bool
    decreases a.len(),
{
    if a.len() == 0 {
        true
    } else if b.len() == 0 {
        false
    } else if (a[0] as u32) == (b[0] as u32) {
        lex_le(a.skip(1), b.skip(1))
    } else {
        (a[0] as u32) < (b[0] as u32)
    }
}

proof fn lemma_lex_total(a: Seq<char>, b: Seq<char>)
    ensures
        lex_le(a, b) || lex_le(b, a),
    decreases a.len(),
{
    if a.len() > 0 && b.len() > 0 && (a[0] as u32) == (b[0] as u32) {
        lemma_lex_total(a.skip(1), b.skip(1));
    }
}

proof fn lemma_lex_trans(a: Seq<char>, b: Seq<char>, c: Seq<char>)
    requires
        lex_le(a, b),
        lex_le(b, c),
    ensures
        lex_le(a, c),
    decreases a.len(),
{
    if a.len() > 0 && b.len() > 0 && c.len() > 0 {
        if (a[0] as u32) == (b[0] as u32) && (b[0] as u32) == (c[0] as u32) {
            lemma_lex_trans(a.skip(1), b.skip(1), c.skip(1));
        }
    }
}

/// Compares two texts in lexicographic order.
pub fn str_le(a: &str, b: &str) -> (r: bool)
    ensures
        r == lex_le(a@, b@),
{
    let la = a.unicode_len();
    let lb = b.unicode_len();
    let mut i: usize = 0;
    proof {
        assert(a@.skip(0) =~= a@);
        assert(b@.skip(0) =~= b@);
    }
    while i < la && i < lb
        invariant
            la == a@.len(),
            lb == b@.len(),
            i <= la,
            i <= lb,
            lex_le(a@, b@) == lex_le(a@.skip(i as int), b@.skip(i as int)),
        decreases la - i,
    {
        let ca = a.get_char(i);
        let cb = b.get_char(i);
        proof {
            assert(a@.skip(i as int)[0] == a@[i as int]);
            assert(b@.skip(i as int)[0] == b@[i as int]);
            assert(a@.skip(i as int).skip(1) =~= a@.skip(i as int + 1));
            assert(b@.skip(i as int).skip(1) =~= b@.skip(i as int + 1));
        }
        if (ca as u32) != (cb as u32) {
            return (ca as u32) < (cb as u32);
        }
        i = i + 1;
    }
    proof {
        if i == la {
            assert(a@.skip(i as int).len() == 0);
        } else {
            assert(b@.skip(i as int).len() == 0);
            assert(a@.skip(i as int).len() > 0);
        }
    }
    la <= lb
}

/// The commit types of the configuration, sorted for the wizard's menu:
/// the same texts, in lexicographic order.
pub fn types(values: Vec<String>) -> (r: Vec<String>)
    ensures
        forall|i: int| 0 <= i && i + 1 < r@.len() ==> lex_le(#[trigger] r@[i]@, r@[i + 1]@),
        r@.to_multiset() == values@.to_multiset(),
{
    broadcast use vstd::seq_lib::group_to_multiset_ensures;

    let mut rest = values;
    let mut out: Vec<String> = Vec::new();
    proof {
        assert(out@.to_multiset().add(rest@.to_multiset()) =~= values@.to_multiset());
    }
    while rest.len() > 0
        invariant
            out@.to_multiset().add(rest@.to_multiset()) == values@.to_multiset(),
            forall|i: int| 0 <= i && i + 1 < out@.len() ==> lex_le(#[trigger] out@[i]@, out@[i + 1]@),
            forall|i: int, j: int|
                0 <= i < out@.len() && 0 <= j < rest@.len() ==> lex_le(
                    #[trigger] out@[i]@,
                    #[trigger] rest@[j]@,
                ),
        decreases rest@.len(),
    {
        broadcast use vstd::seq_lib::group_to_multiset_ensures;

        let mut m: usize = 0;
        let mut k: usize = 1;
        proof {
            lemma_lex_total(rest@[0]@, rest@[0]@);
        }
        while k < rest.len()
            invariant
                rest@.len() > 0,
                1 <= k <= rest@.len(),
                m < k,
                forall|j: int| 0 <= j < k ==> lex_le(#[trigger] rest@[m as int]@, rest@[j]@),
            decreases rest@.len() - k,
        {
            if !str_le(rest[m].as_str(), rest[k].as_str()) {
                proof {
                    lemma_lex_total(rest@[m as int]@, rest@[k as int]@);
                    assert forall|j: int| 0 <= j < k + 1 implies lex_le(
                        #[trigger] rest@[k as int]@,
                        rest@[j]@,
                    ) by {
                        if j < k {
                            lemma_lex_trans(rest@[k as int]@, rest@[m as int]@, rest@[j]@);
                        } else {
                            lemma_lex_total(rest@[k as int]@, rest@[k as int]@);
                        }
                    }
                }
                m = k;
            }
            k = k + 1;
        }
        let ghost old_rest = rest@;
        let ghost old_out = out@;
        let x = rest.remove(m);
        out.push(x);
        proof {
            assert(out@ == old_out.push(x));
            assert(rest@ == old_rest.remove(m as int));
            assert(out@.to_multiset().add(rest@.to_multiset()) =~= values@.to_multiset()) by {
                assert(old_rest.remove(m as int).to_multiset() =~= old_rest.to_multiset().remove(
                    x,
                ));
                assert(old_out.push(x).to_multiset() =~= old_out.to_multiset().insert(x));
                assert(old_rest.to_multiset().count(x) > 0) by {
                    assert(old_rest.contains(x));
                }
            }
            assert forall|i: int| 0 <= i && i + 1 < out@.len() implies lex_le(
                #[trigger] out@[i]@,
                out@[i + 1]@,
            ) by {
                if i + 1 == out@.len() - 1 {
                    assert(out@[i] == old_out[i]);
                    assert(lex_le(old_out[i]@, old_rest[m as int]@));
                }
            }
            assert forall|i: int, j: int|
                0 <= i < out@.len() && 0 <= j < rest@.len() implies lex_le(
                #[trigger] out@[i]@,
                #[trigger] rest@[j]@,
            ) by {
                let j0 = if j < m { j } else { j + 1 };
                assert(rest@[j] == old_rest[j0]);
                if i < out@.len() - 1 {
                    assert(out@[i] == old_out[i]);
                } else {
                    assert(out@[i] == old_rest[m as int]);
                }
            }
        }
    }
    out
}

} // verus!

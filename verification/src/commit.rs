use vstd::prelude::*;
use vstd::string::StrSliceExecFns;

use crate::doc::space_char;
use crate::doc::trimmed_start;

verus! {

/// The commit-wizard configuration table read from the project's
/// configuration file.
pub struct Config {
    pub scopes: Vec<String>,
    pub types: Vec<String>,
    pub repository: String,
    pub me: String,
}

/// Represent a commit type.
pub struct CommitType {
    pub category: String,
    pub name: String,
    pub mnemonic: String,
    pub description: String,
}

/// The name of the version-control tool to drive, given which control
/// directories are present in the working directory: git wins over
/// mercurial, and git is the fallback when neither is present.
pub open spec fn vcs_spec(git: bool, mercurial: bool) -> Seq<char> {
    if git {
        "git"@
    } else if mercurial {
        "hg"@
    } else {
        "git"@
    }
}

/// Picks the version-control tool from the presence of the `.git` and
/// `.hg` directories.
pub fn vcs(git: bool, mercurial: bool) -> (r: String)
    ensures
        r@ == vcs_spec(git, mercurial),
{
    if git {
        String::from_str("git")
    } else if mercurial {
        String::from_str("hg")
    } else {
        String::from_str("git")
    }
}

/// A role of the commit's author within the team.
#[derive(Ord, PartialOrd, Eq, PartialEq, Structural, Debug, Clone, Copy)]
pub enum Role {
    Team,
    Manager,
    Developer,
    Tester,
    Packager,
    Product,
    Engineering,
    Design,
    Marketing,
    Customer,
}

impl Role {
    /// Every role, in declaration order.
    pub fn all() -> (r: Vec<Role>)
        ensures
            r@ == seq![
                Role::Team,
                Role::Manager,
                Role::Developer,
                Role::Tester,
                Role::Packager,
                Role::Product,
                Role::Engineering,
                Role::Design,
                Role::Marketing,
                Role::Customer,
            ],
    {
        let mut r: Vec<Role> = Vec::new();
        r.push(Role::Team);
        r.push(Role::Manager);
        r.push(Role::Developer);
        r.push(Role::Tester);
        r.push(Role::Packager);
        r.push(Role::Product);
        r.push(Role::Engineering);
        r.push(Role::Design);
        r.push(Role::Marketing);
        r.push(Role::Customer);
        proof {
            assert(r@ =~= seq![
                Role::Team,
                Role::Manager,
                Role::Developer,
                Role::Tester,
                Role::Packager,
                Role::Product,
                Role::Engineering,
                Role::Design,
                Role::Marketing,
                Role::Customer,
            ]);
        }
        r
    }

    /// The display name of the role.
    pub open spec fn name_spec(role: Role) -> Seq<char> {
        match role {
            Role::Team => "Team"@,
            Role::Manager => "Manager"@,
            Role::Developer => "Developer"@,
            Role::Tester => "Tester"@,
            Role::Packager => "Packager"@,
            Role::Product => "Product"@,
            Role::Engineering => "Engineering"@,
            Role::Design => "Design"@,
            Role::Marketing => "Marketing"@,
            Role::Customer => "Customer"@,
        }
    }

    pub fn name(&self) -> (r: &'static str)
        ensures
            r@ == Role::name_spec(*self),
    {
        match self {
            Role::Team => "Team",
            Role::Manager => "Manager",
            Role::Developer => "Developer",
            Role::Tester => "Tester",
            Role::Packager => "Packager",
            Role::Product => "Product",
            Role::Engineering => "Engineering",
            Role::Design => "Design",
            Role::Marketing => "Marketing",
            Role::Customer => "Customer",
        }
    }
}

/// The answers gathered by the commit wizard, from which the commit
/// message is rendered.
#[derive(Debug, Clone)]
pub struct Commit {
    pub t: String,
    pub scopes: Vec<String>,
    pub summary: String,
    pub why: String,
    pub who: String,
    pub roles: Vec<String>,
    pub what: String,
    pub benefits: String,
    pub breaking_changes: String,
    pub notes: String,
    pub resolves: Vec<String>,
}

/// Every field of the commit is empty.
pub open spec fn commit_is_empty(c: Commit) -> bool {
    &&& c.t@ == Seq::<char>::empty()
    &&& c.scopes@ == Seq::<String>::empty()
    &&& c.summary@ == Seq::<char>::empty()
    &&& c.why@ == Seq::<char>::empty()
    &&& c.who@ == Seq::<char>::empty()
    &&& c.roles@ == Seq::<String>::empty()
    &&& c.what@ == Seq::<char>::empty()
    &&& c.benefits@ == Seq::<char>::empty()
    &&& c.breaking_changes@ == Seq::<char>::empty()
    &&& c.notes@ == Seq::<char>::empty()
    &&& c.resolves@ == Seq::<String>::empty()
}

impl Default for Commit {
    fn default() -> (c: Commit)
        ensures
            commit_is_empty(c),
    {
        Commit {
            t: String::new(),
            scopes: Vec::new(),
            summary: String::new(),
            why: String::new(),
            who: String::new(),
            roles: Vec::new(),
            what: String::new(),
            benefits: String::new(),
            breaking_changes: String::new(),
            notes: String::new(),
            resolves: Vec::new(),
        }
    }
}

impl Commit {
    /// A commit with every answer still blank.
    pub fn new() -> (c: Commit)
        ensures
            commit_is_empty(c),
    {
        Commit::default()
    }
}


/// The items joined with the separator between neighbours.
pub open spec fn join_spec(items: Seq<Seq<char>>, sep: Seq<char>) -> Seq<char>
    decreases items.len(),
{
    if items.len() == 0 {
        Seq::empty()
    } else if items.len() == 1 {
        items[0]
    } else {
        join_spec(items.drop_last(), sep) + sep + items.last()
    }
}

/// The text cut at every newline; a text without one is a single line.
pub open spec fn split_lines(s: Seq<char>) -> Seq<Seq<char>>
    decreases s.len(),
{
    if s.len() == 0 {
        seq![Seq::<char>::empty()]
    } else if s[0] == '\n' {
        seq![Seq::<char>::empty()] + split_lines(s.skip(1))
    } else {
        let rest = split_lines(s.skip(1));
        rest.update(0, seq![s[0]] + rest[0])
    }
}

/// One line of a bulleted section: a blank line stands alone, any other
/// line becomes an indented bullet.
pub open spec fn line_text(line: Seq<char>) -> Seq<char> {
    if line.len() == 0 {
        "\n\n"@
    } else {
        "\t\t* "@ + line + "\n"@
    }
}

/// The rendered lines, in order.
pub open spec fn lines_text(lines: Seq<Seq<char>>) -> Seq<char>
    decreases lines.len(),
{
    if lines.len() == 0 {
        Seq::empty()
    } else {
        lines_text(lines.drop_last()) + line_text(lines.last())
    }
}

/// A free-text answer rendered as a bulleted section.
pub open spec fn bullets(s: Seq<char>) -> Seq<char> {
    lines_text(split_lines(s))
}

/// The text before the first occurrence of the separator.
pub open spec fn leading_until(s: Seq<char>, sep: char) -> Seq<char>
    decreases s.len(),
{
    if s.len() == 0 {
        Seq::empty()
    } else if s[0] == sep {
        Seq::empty()
    } else {
        seq![s[0]] + leading_until(s.skip(1), sep)
    }
}

/// The text with its trailing whitespace removed.
pub open spec fn trimmed_end(s: Seq<char>) -> Seq<char>
    decreases s.len(),
{
    if s.len() > 0 && space_char(s.last()) {
        trimmed_end(s.drop_last())
    } else {
        s
    }
}

/// The text with whitespace removed at both ends.
pub open spec fn trimmed(s: Seq<char>) -> Seq<char> {
    trimmed_end(trimmed_start(s))
}

/// The `Resolves` section: one `Fixes` line per answered issue, keeping
/// what stands before the first `~` of the answer.
pub open spec fn resolves_text(items: Seq<Seq<char>>) -> Seq<char>
    decreases items.len(),
{
    if items.len() == 0 {
        Seq::empty()
    } else {
        resolves_text(items.drop_last()) + "\t\tFixes #"@ + trimmed(
            leading_until(items.last(), '~'),
        ) + "\n"@
    }
}

/// The whole commit message that the wizard's answers render to.
pub open spec fn message_spec(c: Commit) -> Seq<char> {
    c.t@ + "("@ + join_spec(c.scopes.deep_view(), ","@) + ") ~ "@ + c.summary@ + "\n"@
        + "\n\tWhy changes?\n\n"@ + bullets(c.why@) + "\n\tBreaking Changes:\n\n"@ + bullets(
        c.breaking_changes@,
    ) + "\n\tWhat changes?\n\n"@ + bullets(c.what@) + "\n\tWho changes?\n\n"@ + "\t\t* @"@
        + c.who@ + " ~ "@ + join_spec(c.roles.deep_view(), " "@) + " \n"@ + "\n\tBenefits:\n\n"@
        + bullets(c.benefits@) + "\n\tNotes:\n\n"@ + bullets(c.notes@) + "\n\tResolves\n\n"@
        + resolves_text(c.resolves.deep_view()) + "\n\n"@
}

fn find_char_from(s: &str, from: usize, n: usize, sep: char) -> (e: usize)
    requires
        n == s@.len(),
        from <= n,
    ensures
        from <= e <= n,
        forall|j: int| from <= j < e ==> s@[j] != sep,
        e < n ==> s@[e as int] == sep,
{
    let mut e = from;
    while e < n && s.get_char(e) != sep
        invariant
            n == s@.len(),
            from <= e <= n,
            forall|j: int| from <= j < e ==> s@[j] != sep,
        decreases n - e,
    {
        e = e + 1;
    }
    e
}

proof fn lemma_split_first(s: Seq<char>, p: int)
    requires
        0 <= p <= s.len(),
        forall|j: int| 0 <= j < p ==> s[j] != '\n',
        p == s.len() || s[p] == '\n',
    ensures
        p == s.len() ==> split_lines(s) == seq![s],
        p < s.len() ==> split_lines(s) == seq![s.take(p)] + split_lines(s.skip(p + 1)),
    decreases s.len(),
{
    if s.len() == 0 {
        assert(split_lines(s) =~~= seq![s]);
    } else if s[0] == '\n' {
        assert(p == 0);
        assert(s.take(0) =~= Seq::<char>::empty());
        assert(split_lines(s) =~~= seq![s.take(0)] + split_lines(s.skip(1)));
    } else {
        assert(p >= 1);
        let t = s.skip(1);
        assert forall|j: int| 0 <= j < p - 1 implies t[j] != '\n' by {
            assert(t[j] == s[j + 1]);
        }
        if p < s.len() {
            assert(t[p - 1] == s[p]);
        }
        lemma_split_first(t, p - 1);
        let rest = split_lines(t);
        if p == s.len() {
            assert(rest == seq![t]);
            assert(seq![s[0]] + t =~= s);
            assert(rest.update(0, seq![s[0]] + rest[0]) =~~= seq![s]);
        } else {
            assert(rest == seq![t.take(p - 1)] + split_lines(t.skip(p)));
            assert(rest[0] == t.take(p - 1));
            assert(seq![s[0]] + t.take(p - 1) =~= s.take(p));
            assert(t.skip(p) =~= s.skip(p + 1));
            assert(rest.update(0, seq![s[0]] + rest[0]) =~~= seq![s.take(p)] + split_lines(
                s.skip(p + 1),
            ));
        }
    }
}

fn split_lines_exec(s: &str) -> (r: Vec<String>)
    ensures
        r.deep_view() == split_lines(s@),
{
    let n = s.unicode_len();
    let mut fields: Vec<String> = Vec::new();
    let mut pos: usize = 0;
    let mut done = false;
    proof {
        assert(s@.skip(0) =~= s@);
        assert(fields.deep_view() =~~= Seq::<Seq<char>>::empty());
    }
    while !done
        invariant
            n == s@.len(),
            pos <= n,
            !done ==> split_lines(s@) == fields.deep_view() + split_lines(s@.skip(pos as int)),
            done ==> fields.deep_view() == split_lines(s@),
        decreases n - pos, (if done { 0int } else { 1int }),
    {
        let e = find_char_from(s, pos, n, '\n');
        let seg = s.substring_char(pos, e);
        let ghost prev = fields.deep_view();
        fields.push(seg.to_owned());
        proof {
            assert(fields.deep_view() =~~= prev.push(seg@));
            let d = s@.skip(pos as int);
            assert forall|j: int| 0 <= j < e - pos implies d[j] != '\n' by {
                assert(d[j] == s@[pos + j]);
            }
            if e < n {
                assert(d[e - pos] == s@[e as int]);
            }
            lemma_split_first(d, e - pos);
            assert(seg@ =~= d.take(e - pos));
        }
        if e == n {
            proof {
                assert(split_lines(s@.skip(pos as int)) == seq![s@.skip(pos as int)]);
                assert(seg@ =~= s@.skip(pos as int));
                assert(fields.deep_view() =~~= split_lines(s@));
            }
            done = true;
        } else {
            proof {
                assert(s@.skip(pos as int).skip(e - pos + 1) =~= s@.skip(e as int + 1));
                assert(fields.deep_view() + split_lines(s@.skip(e as int + 1)) =~~= split_lines(
                    s@,
                ));
            }
            pos = e + 1;
        }
    }
    fields
}

fn push_join(acc: String, items: &Vec<String>, sep: &str) -> (r: String)
    ensures
        r@ == acc@ + join_spec(items.deep_view(), sep@),
{
    let mut out = acc;
    let ghost base = out@;
    let mut i: usize = 0;
    proof {
        assert(out@ =~= base + join_spec(items.deep_view().take(0), sep@));
    }
    while i < items.len()
        invariant
            i <= items@.len(),
            out@ == base + join_spec(items.deep_view().take(i as int), sep@),
            items.deep_view().len() == items@.len(),
        decreases items@.len() - i,
    {
        if i > 0 {
            out = out.concat(sep);
        }
        out = out.concat(items[i].as_str());
        proof {
            let dv = items.deep_view();
            assert(dv.take(i as int + 1).drop_last() =~= dv.take(i as int));
            assert(dv.take(i as int + 1).last() == dv[i as int]);
            assert(dv[i as int] == items@[i as int]@);
            if i == 0 {
                assert(join_spec(dv.take(1), sep@) == dv[0]);
                assert(out@ =~= base + join_spec(dv.take(1), sep@));
            } else {
                assert(out@ =~= base + join_spec(dv.take(i as int + 1), sep@));
            }
        }
        i = i + 1;
    }
    proof {
        assert(items.deep_view().take(items@.len() as int) =~= items.deep_view());
    }
    out
}

fn push_bullets(acc: String, s: &str) -> (r: String)
    ensures
        r@ == acc@ + bullets(s@),
{
    let lines = split_lines_exec(s);
    let mut out = acc;
    let ghost base = out@;
    let ghost all = split_lines(s@);
    let mut i: usize = 0;
    proof {
        assert(out@ =~= base + lines_text(all.take(0)));
    }
    while i < lines.len()
        invariant
            i <= lines@.len(),
            all == split_lines(s@),
            lines.deep_view() == all,
            lines@.len() == all.len(),
            out@ == base + lines_text(all.take(i as int)),
        decreases lines@.len() - i,
    {
        let line = &lines[i];
        if line.as_str().is_empty() {
            out = out.concat("\n\n");
        } else {
            out = out.concat("\t\t* ").concat(line.as_str()).concat("\n");
        }
        proof {
            assert(all.take(i as int + 1).drop_last() =~= all.take(i as int));
            assert(all.take(i as int + 1).last() == all[i as int]);
            assert(all[i as int] == lines@[i as int]@);
            assert(out@ =~= base + lines_text(all.take(i as int + 1)));
        }
        i = i + 1;
    }
    proof {
        assert(all.take(lines@.len() as int) =~= all);
    }
    out
}

proof fn lemma_leading_until(s: Seq<char>, sep: char, p: int)
    requires
        0 <= p <= s.len(),
        forall|j: int| 0 <= j < p ==> s[j] != sep,
        p == s.len() || s[p] == sep,
    ensures
        leading_until(s, sep) == s.take(p),
    decreases s.len(),
{
    if s.len() == 0 {
        assert(s.take(0) =~= leading_until(s, sep));
    } else if s[0] == sep {
        assert(p == 0);
        assert(s.take(0) =~= Seq::<char>::empty());
    } else {
        assert(p >= 1);
        let t = s.skip(1);
        assert forall|j: int| 0 <= j < p - 1 implies t[j] != sep by {
            assert(t[j] == s[j + 1]);
        }
        if p < s.len() {
            assert(t[p - 1] == s[p]);
        }
        lemma_leading_until(t, sep, p - 1);
        assert(seq![s[0]] + t.take(p - 1) =~= s.take(p));
    }
}

proof fn lemma_trimmed_start_skip(s: Seq<char>, a: int)
    requires
        0 <= a <= s.len(),
        forall|j: int| 0 <= j < a ==> space_char(s[j]),
        a == s.len() || !space_char(s[a]),
    ensures
        trimmed_start(s) == s.skip(a),
    decreases a,
{
    if a == 0 {
        assert(s.skip(0) =~= s);
    } else {
        let t = s.skip(1);
        assert forall|j: int| 0 <= j < a - 1 implies space_char(t[j]) by {
            assert(t[j] == s[j + 1]);
        }
        if a < s.len() {
            assert(t[a - 1] == s[a]);
        }
        lemma_trimmed_start_skip(t, a - 1);
        assert(t.skip(a - 1) =~= s.skip(a));
    }
}

proof fn lemma_trimmed_end_take(s: Seq<char>, b: int)
    requires
        0 <= b <= s.len(),
        forall|j: int| b <= j < s.len() ==> space_char(s[j]),
        b == 0 || !space_char(s[b - 1]),
    ensures
        trimmed_end(s) == s.take(b),
    decreases s.len(),
{
    if b == s.len() {
        assert(s.take(b) =~= s);
    } else {
        let t = s.drop_last();
        assert forall|j: int| b <= j < t.len() implies space_char(t[j]) by {
            assert(t[j] == s[j]);
        }
        lemma_trimmed_end_take(t, b);
        assert(t.take(b) =~= s.take(b));
    }
}

fn trimmed_first_field(item: &str) -> (r: String)
    ensures
        r@ == trimmed(leading_until(item@, '~')),
{
    let n = item.unicode_len();
    let t = find_char_from(item, 0, n, '~');
    proof {
        lemma_leading_until(item@, '~', t as int);
    }
    let ghost u = item@.take(t as int);
    let mut a: usize = 0;
    while a < t && char_is_space_exec(item.get_char(a))
        invariant
            n == item@.len(),
            t <= n,
            a <= t,
            forall|j: int| 0 <= j < a ==> space_char(item@[j]),
        decreases t - a,
    {
        a = a + 1;
    }
    if a == t {
        proof {
            assert forall|j: int| 0 <= j < u.len() implies space_char(u[j]) by {
                assert(u[j] == item@[j]);
            }
            lemma_trimmed_start_skip(u, u.len() as int);
            assert(u.skip(u.len() as int) =~= Seq::<char>::empty());
            assert(trimmed(u) =~= Seq::<char>::empty());
        }
        return String::new();
    }
    let mut b: usize = t;
    while b > a && char_is_space_exec(item.get_char(b - 1))
        invariant
            n == item@.len(),
            a < t <= n,
            a <= b <= t,
            forall|j: int| b <= j < t ==> space_char(item@[j]),
        decreases b,
    {
        b = b - 1;
    }
    proof {
        let v = u.skip(a as int);
        assert forall|j: int| 0 <= j < a implies space_char(u[j]) by {
            assert(u[j] == item@[j]);
        }
        assert(u[a as int] == item@[a as int]);
        lemma_trimmed_start_skip(u, a as int);
        assert(b > a);
        assert(!space_char(item@[b as int - 1]));
        assert forall|j: int| b - a <= j < v.len() implies space_char(v[j]) by {
            assert(v[j] == item@[a + j]);
        }
        assert(v[b - a - 1] == item@[b as int - 1]);
        lemma_trimmed_end_take(v, b - a as int);
        assert(v.take(b - a as int) =~= item@.subrange(a as int, b as int));
    }
    let field = item.substring_char(a, b);
    field.to_owned()
}

fn char_is_space_exec(c: char) -> (r: bool)
    ensures
        r == space_char(c),
{
    c == ' ' || c == '\t' || c == '\n' || c == '\r'
}

fn push_resolves(acc: String, items: &Vec<String>) -> (r: String)
    ensures
        r@ == acc@ + resolves_text(items.deep_view()),
{
    let mut out = acc;
    let ghost base = out@;
    let ghost dv = items.deep_view();
    let mut i: usize = 0;
    proof {
        assert(out@ =~= base + resolves_text(dv.take(0)));
    }
    while i < items.len()
        invariant
            i <= items@.len(),
            dv == items.deep_view(),
            dv.len() == items@.len(),
            out@ == base + resolves_text(dv.take(i as int)),
        decreases items@.len() - i,
    {
        let field = trimmed_first_field(items[i].as_str());
        out = out.concat("\t\tFixes #").concat(field.as_str()).concat("\n");
        proof {
            assert(dv.take(i as int + 1).drop_last() =~= dv.take(i as int));
            assert(dv.take(i as int + 1).last() == dv[i as int]);
            assert(dv[i as int] == items@[i as int]@);
            assert(out@ =~= base + resolves_text(dv.take(i as int + 1)));
        }
        i = i + 1;
    }
    proof {
        assert(dv.take(items@.len() as int) =~= dv);
    }
    out
}

impl Commit {
    /// Renders the whole commit message from the answers: the summary
    /// line, each free-text answer as a bulleted section, the author line,
    /// and one `Fixes` line per resolved issue.
    pub fn message(&self) -> (r: String)
        ensures
            r@ == message_spec(*self),
    {
        let mut out = self.t.clone();
        out = out.concat("(");
        out = push_join(out, &self.scopes, ",");
        out = out.concat(") ~ ").concat(self.summary.as_str()).concat("\n");
        out = out.concat("\n\tWhy changes?\n\n");
        out = push_bullets(out, self.why.as_str());
        out = out.concat("\n\tBreaking Changes:\n\n");
        out = push_bullets(out, self.breaking_changes.as_str());
        out = out.concat("\n\tWhat changes?\n\n");
        out = push_bullets(out, self.what.as_str());
        out = out.concat("\n\tWho changes?\n\n");
        out = out.concat("\t\t* @").concat(self.who.as_str()).concat(" ~ ");
        out = push_join(out, &self.roles, " ");
        out = out.concat(" \n");
        out = out.concat("\n\tBenefits:\n\n");
        out = push_bullets(out, self.benefits.as_str());
        out = out.concat("\n\tNotes:\n\n");
        out = push_bullets(out, self.notes.as_str());
        out = out.concat("\n\tResolves\n\n");
        out = push_resolves(out, &self.resolves);
        out = out.concat("\n\n");
        proof {
            assert(out@ =~= message_spec(*self));
        }
        out
    }
}

} // verus!

use vstd::prelude::*;
use vstd::string::StrSliceExecFns;

verus! {

/// A character the shell would interpret: command separators, pipes,
/// substitution.
pub open spec fn shell_meta_char(c: char) -> bool {
    c == ';' || c == '&' || c == '|' || c == '`' || c == '$'
}

/// Some character of the text is a shell metacharacter.
pub open spec fn has_shell_meta(s: Seq<char>) -> bool {
    exists|i: int| 0 <= i < s.len() && shell_meta_char(s[i])
}

/// The text contains a parent-directory step.
pub open spec fn has_dot_dot(s: Seq<char>) -> bool {
    exists|i: int| 0 <= i && i + 1 < s.len() && #[trigger] s[i] == '.' && s[i + 1] == '.'
}

/// ASCII whitespace, as the command texts use it.
pub open spec fn space_char(c: char) -> bool {
    c == ' ' || c == '\t' || c == '\n' || c == '\r'
}

/// The text with its leading whitespace removed.
pub open spec fn trimmed_start(s: Seq<char>) -> Seq<char>
    decreases s.len(),
{
    if s.len() > 0 && space_char(s[0]) {
        trimmed_start(s.skip(1))
    } else {
        s
    }
}

/// The run of non-whitespace characters at the front of the text.
pub open spec fn leading_token(s: Seq<char>) -> Seq<char>
    decreases s.len(),
{
    if s.len() == 0 {
        Seq::empty()
    } else if space_char(s[0]) {
        Seq::empty()
    } else {
        seq![s[0]] + leading_token(s.skip(1))
    }
}

/// The first whitespace-separated word of the text: the binary it invokes.
pub open spec fn first_token(s: Seq<char>) -> Seq<char> {
    leading_token(trimmed_start(s))
}

/// The binaries a documentation command may invoke.
pub open spec fn allowed_binary(t: Seq<char>) -> bool {
    ||| t == "cargo"@
    ||| t == "doxygen"@
    ||| t == "rm"@
    ||| t == "cp"@
    ||| t == "mkdir"@
    ||| t == "touch"@
}

/// A command is safe to hand to the shell when it holds no shell
/// metacharacter and no parent-directory step, does not start (after
/// leading whitespace) with a slash, and invokes an allowed binary.
pub open spec fn safe_command(s: Seq<char>) -> bool {
    &&& !has_shell_meta(s)
    &&& !has_dot_dot(s)
    &&& !(trimmed_start(s).len() > 0 && trimmed_start(s)[0] == '/')
    &&& allowed_binary(first_token(s))
}

fn char_is_meta(c: char) -> (r: bool)
    ensures
        r == shell_meta_char(c),
{
    c == ';' || c == '&' || c == '|' || c == '`' || c == '$'
}

fn char_is_space(c: char) -> (r: bool)
    ensures
        r == space_char(c),
{
    c == ' ' || c == '\t' || c == '\n' || c == '\r'
}

proof fn lemma_leading_token(s: Seq<char>, k: int)
    requires
        0 <= k <= s.len(),
        forall|j: int| 0 <= j < k ==> !space_char(s[j]),
        k == s.len() || space_char(s[k]),
    ensures
        leading_token(s) == s.take(k),
    decreases s.len(),
{
    if s.len() == 0 {
        assert(s.take(0) =~= leading_token(s));
    } else if space_char(s[0]) {
        assert(k == 0);
        assert(s.take(0) =~= Seq::<char>::empty());
    } else {
        assert(k >= 1);
        lemma_leading_token(s.skip(1), k - 1);
        assert(seq![s[0]] + s.skip(1).take(k - 1) =~= s.take(k));
    }
}

/// Checks that a command is safe to execute.
pub fn is_safe_command(cmd: &str) -> (r: bool)
    ensures
        r == safe_command(cmd@),
{
    let n = cmd.unicode_len();
    let mut i: usize = 0;
    while i < n
        invariant
            n == cmd@.len(),
            i <= n,
            forall|j: int| 0 <= j < i ==> !shell_meta_char(cmd@[j]),
            forall|j: int|
                0 <= j < i && j + 1 < n ==> !(#[trigger] cmd@[j] == '.' && cmd@[j + 1] == '.'),
        decreases n - i,
    {
        let c = cmd.get_char(i);
        if char_is_meta(c) {
            return false;
        }
        if c == '.' && i + 1 < n {
            if cmd.get_char(i + 1) == '.' {
                return false;
            }
        }
        i = i + 1;
    }
    let mut a: usize = 0;
    proof {
        assert(cmd@.skip(0) =~= cmd@);
    }
    while a < n && char_is_space(cmd.get_char(a))
        invariant
            n == cmd@.len(),
            a <= n,
            trimmed_start(cmd@) == trimmed_start(cmd@.skip(a as int)),
        decreases n - a,
    {
        proof {
            assert(cmd@.skip(a as int).skip(1) =~= cmd@.skip(a as int + 1));
        }
        a = a + 1;
    }
    proof {
        assert(trimmed_start(cmd@) == cmd@.skip(a as int));
    }
    if a == n {
        proof {
            reveal_strlit("cargo");
            reveal_strlit("doxygen");
            reveal_strlit("rm");
            reveal_strlit("cp");
            reveal_strlit("mkdir");
            reveal_strlit("touch");
            assert(cmd@.skip(a as int) =~= Seq::<char>::empty());
            assert(first_token(cmd@).len() == 0);
            assert("rm"@.len() == 2);
            assert("cp"@.len() == 2);
            assert("cargo"@.len() == 5);
            assert("touch"@.len() == 5);
            assert("mkdir"@.len() == 5);
            assert("doxygen"@.len() == 7);
        }
        return false;
    }
    let c0 = cmd.get_char(a);
    if c0 == '/' {
        return false;
    }
    let mut e: usize = a;
    while e < n && !char_is_space(cmd.get_char(e))
        invariant
            n == cmd@.len(),
            a <= e <= n,
            forall|j: int| a <= j < e ==> !space_char(cmd@[j]),
        decreases n - e,
    {
        e = e + 1;
    }
    proof {
        let d = cmd@.skip(a as int);
        assert forall|j: int| 0 <= j < e - a implies !space_char(d[j]) by {
            assert(d[j] == cmd@[a + j]);
        }
        if e < n {
            assert(d[e - a] == cmd@[e as int]);
        }
        lemma_leading_token(d, e - a as int);
        assert(d.take(e - a as int) =~= cmd@.subrange(a as int, e as int));
    }
    let token = cmd.substring_char(a, e);
    let allowed = crate::utils::str_eq(token, "cargo") || crate::utils::str_eq(token, "doxygen")
        || crate::utils::str_eq(token, "rm") || crate::utils::str_eq(token, "cp")
        || crate::utils::str_eq(token, "mkdir") || crate::utils::str_eq(token, "touch");
    allowed
}

} // verus!

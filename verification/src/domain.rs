//! Validated value types.

use vstd::prelude::*;
use vstd::string::*;
use vstd::utf8::is_ascii_chars;

verus! {

/// Characters accepted before the `@` of an address.
pub open spec fn is_local_char(c: char) -> bool {
    ||| 'a' <= c <= 'z'
    ||| 'A' <= c <= 'Z'
    ||| '0' <= c <= '9'
    ||| c == '.' || c == '!' || c == '#' || c == '$' || c == '%' || c == '&'
    ||| c == '\'' || c == '*' || c == '+' || c == '/' || c == '=' || c == '?'
    ||| c == '^' || c == '_' || c == '`' || c == '{' || c == '|' || c == '}'
    ||| c == '~' || c == '-'
}

/// Characters accepted after the `@` of an address.
pub open spec fn is_domain_char(c: char) -> bool {
    ||| 'a' <= c <= 'z'
    ||| 'A' <= c <= 'Z'
    ||| '0' <= c <= '9'
    ||| c == '.' || c == '-'
}

/// `s` is an address whose `@` stands at index `at`: a non-empty local part
/// of local characters, then a non-empty domain of domain characters that
/// neither starts nor ends with a dot or a hyphen.
pub open spec fn splits_at(s: Seq<char>, at: int) -> bool {
    &&& 0 < at < s.len() - 1
    &&& s[at] == '@'
    &&& forall|i: int| 0 <= i < at ==> is_local_char(#[trigger] s[i])
    &&& forall|i: int| at < i < s.len() ==> is_domain_char(#[trigger] s[i])
    &&& s[at + 1] != '.' && s[at + 1] != '-'
    &&& s[s.len() - 1] != '.' && s[s.len() - 1] != '-'
}

/// The syntax of an email address.
pub open spec fn is_valid_email(s: Seq<char>) -> bool {
    exists|at: int| splits_at(s, at)
}

/// An address has its `@` where its run of leading local characters ends.
pub proof fn lemma_at_sign_position(s: Seq<char>, at: int, run: int)
    requires
        splits_at(s, at),
        0 <= run <= s.len(),
        forall|i: int| 0 <= i < run ==> is_local_char(#[trigger] s[i]),
        run < s.len() ==> !is_local_char(s[run]),
    ensures
        at == run,
{
    if at < run {
        assert(is_local_char(s[at]));
    } else if at > run {
        assert(is_local_char(s[run]));
    }
}

/// Every character of an address is ASCII.
pub proof fn lemma_valid_email_is_ascii(s: Seq<char>)
    requires
        is_valid_email(s),
    ensures
        is_ascii_chars(s),
{
    let at = choose|at: int| splits_at(s, at);
    assert forall|i: int| 0 <= i < s.len() implies '\0' <= #[trigger] s[i] <= '\u{7f}' by {
        if i < at {
            assert(is_local_char(s[i]));
        } else if i > at {
            assert(is_domain_char(s[i]));
        }
    }
}

/// The character that an ASCII byte stands for.
fn ascii_char(b: u8, Ghost(c): Ghost<char>) -> (r: char)
    requires
        c <= '\u{7f}',
        c as u8 == b,
    ensures
        r == c,
{
    b as char
}

fn local_char(c: char) -> (r: bool)
    ensures
        r == is_local_char(c),
{
    ('a' <= c && c <= 'z') || ('A' <= c && c <= 'Z') || ('0' <= c && c <= '9') || c == '.' || c
        == '!' || c == '#' || c == '$' || c == '%' || c == '&' || c == '\'' || c == '*' || c
        == '+' || c == '/' || c == '=' || c == '?' || c == '^' || c == '_' || c == '`' || c
        == '{' || c == '|' || c == '}' || c == '~' || c == '-'
}

fn domain_char(c: char) -> (r: bool)
    ensures
        r == is_domain_char(c),
{
    ('a' <= c && c <= 'z') || ('A' <= c && c <= 'Z') || ('0' <= c && c <= '9') || c == '.' || c
        == '-'
}

/// The character at index `i` of an ASCII text, in constant time.
fn char_at(s: &str, i: usize) -> (r: char)
    requires
        s.is_ascii(),
        i < s@.len(),
    ensures
        r == s@[i as int],
{
    ascii_char(s.get_ascii(i), Ghost(s@[i as int]))
}

/// Decides whether `s` has the syntax of an email address.
pub fn is_email_syntax(s: &str) -> (ok: bool)
    ensures
        ok == is_valid_email(s@),
{
    if !s.is_ascii() {
        proof {
            if is_valid_email(s@) {
                lemma_valid_email_is_ascii(s@);
            }
        }
        return false;
    }
    let n: usize = s.unicode_len();
    let mut run: usize = 0;
    while run < n && local_char(char_at(s, run))
        invariant
            s.is_ascii(),
            n == s@.len(),
            run <= n,
            forall|i: int| 0 <= i < run ==> is_local_char(#[trigger] s@[i]),
        decreases n - run,
    {
        run = run + 1;
    }
    proof {
        assert forall|at: int| splits_at(s@, at) implies at == run by {
            lemma_at_sign_position(s@, at, run as int);
        }
    }
    if run == 0 || n - run < 2 {
        return false;
    }
    if char_at(s, run) != '@' {
        return false;
    }
    let first = char_at(s, run + 1);
    let last = char_at(s, n - 1);
    if first == '.' || first == '-' || last == '.' || last == '-' {
        return false;
    }
    let mut i: usize = run + 1;
    while i < n
        invariant
            s.is_ascii(),
            n == s@.len(),
            run < i <= n,
            forall|j: int| run < j < i ==> is_domain_char(#[trigger] s@[j]),
            forall|at: int| splits_at(s@, at) ==> at == run,
        decreases n - i,
    {
        if !domain_char(char_at(s, i)) {
            proof {
                assert(!is_domain_char(s@[i as int]));
                assert(!splits_at(s@, run as int));
            }
            return false;
        }
        i = i + 1;
    }
    proof {
        assert(splits_at(s@, run as int));
    }
    true
}

/// An input that is not an email address.
#[derive(Clone, Debug, PartialEq, Eq)]
pub struct InvalidEmail {
    /// The text that was refused.
    pub text: String,
}

/// An email address whose syntax was checked when it was made.
#[derive(Debug)]
pub struct SubscriberEmail {
    text: String,
}

impl View for SubscriberEmail {
    type V = Seq<char>;

    closed spec fn view(&self) -> Seq<char> {
        self.text@
    }
}

impl Clone for SubscriberEmail {
    fn clone(&self) -> (r: Self)
        ensures
            r@ == self@,
    {
        proof {
            use_type_invariant(self);
        }
        SubscriberEmail { text: self.text.clone() }
    }
}

impl SubscriberEmail {
    #[verifier::type_invariant]
    spec fn valid(self) -> bool {
        is_valid_email(self.text@)
    }

    /// Accepts `s` exactly when it has the syntax of an email address, and
    /// hands the text back in the error otherwise.
    pub fn parse(s: String) -> (r: Result<SubscriberEmail, InvalidEmail>)
        ensures
            match r {
                Ok(email) => is_valid_email(s@) && email@ == s@,
                Err(refused) => !is_valid_email(s@) && refused.text@ == s@,
            },
    {
        if is_email_syntax(s.as_str()) {
            Ok(SubscriberEmail { text: s })
        } else {
            Err(InvalidEmail { text: s })
        }
    }

    /// The address as text.
    pub fn as_str(&self) -> (r: &str)
        ensures
            r@ == self@,
            is_valid_email(r@),
    {
        proof {
            use_type_invariant(self);
        }
        self.text.as_str()
    }
}

} // verus!

//! Validated subscriber identity: names and email addresses accepted by the
//! validator, as value objects that can only be built through `parse`.

use vstd::prelude::*;

verus! {

use vstd::string::StrSliceExecFns;

/// Greatest number of characters a subscriber name may hold.
pub const MAX_NAME_LEN: usize = 256;

/// A character that may never appear in a subscriber name or address:
/// markup delimiters that could break the HTML email body, and ASCII
/// control characters.
pub open spec fn is_forbidden_char(c: char) -> bool {
    ||| c == '/'
    ||| c == '('
    ||| c == ')'
    ||| c == '"'
    ||| c == '<'
    ||| c == '>'
    ||| c == '\\'
    ||| c == '{'
    ||| c == '}'
    ||| (c as u32) < 0x20
    ||| (c as u32) == 0x7f
}

/// How often `c` occurs in `s`.
pub open spec fn count_char(s: Seq<char>, c: char) -> nat
    decreases s.len(),
{
    if s.len() == 0 {
        0
    } else {
        count_char(s.drop_last(), c) + if s.last() == c {
            1nat
        } else {
            0nat
        }
    }
}

/// A name the validator accepts: non-empty, at most `MAX_NAME_LEN`
/// characters, and free of forbidden characters.
pub open spec fn valid_name(s: Seq<char>) -> bool {
    &&& 0 < s.len() <= MAX_NAME_LEN
    &&& forall|i: int| 0 <= i < s.len() ==> !is_forbidden_char(#[trigger] s[i])
}

/// A character that may not appear in an email address: spaces on top of
/// everything a name already excludes.
pub open spec fn is_forbidden_email_char(c: char) -> bool {
    c == ' ' || is_forbidden_char(c)
}

/// An address the validator accepts: exactly one `@`, neither first nor
/// last, and free of spaces, control characters and markup delimiters.
/// The empty string has no `@` and is therefore rejected.
pub open spec fn valid_email(s: Seq<char>) -> bool {
    &&& count_char(s, '@') == 1
    &&& s.first() != '@'
    &&& s.last() != '@'
    &&& forall|i: int| 0 <= i < s.len() ==> !is_forbidden_email_char(#[trigger] s[i])
}

/// The message returned when a submitted name is rejected.
pub open spec fn name_error_message() -> Seq<char> {
    "not a valid subscriber name"@
}

/// The message returned when a submitted email address is rejected.
pub open spec fn email_error_message() -> Seq<char> {
    "not a valid subscriber email"@
}

fn is_forbidden(c: char) -> (r: bool)
    ensures
        r == is_forbidden_char(c),
{
    c == '/' || c == '(' || c == ')' || c == '"' || c == '<' || c == '>' || c == '\\' || c == '{'
        || c == '}' || (c as u32) < 0x20 || (c as u32) == 0x7f
}

/// A validated subscriber name. Values of this type exist only through
/// [`SubscriberName::parse`], so holding one proves the name was accepted.
#[derive(Debug)]
pub struct SubscriberName {
    inner: String,
}

impl View for SubscriberName {
    type V = Seq<char>;

    closed spec fn view(&self) -> Seq<char> {
        self.inner@
    }
}

impl SubscriberName {
    /// A well-formed value holds an accepted name.
    pub open spec fn wf(&self) -> bool {
        valid_name(self@)
    }

    /// Accepts `s` exactly when it is a valid subscriber name.
    pub fn parse(s: String) -> (r: Result<SubscriberName, String>)
        ensures
            r matches Ok(n) ==> n@ == s@ && n.wf(),
            r is Ok <==> valid_name(s@),
            r matches Err(e) ==> e@ == name_error_message(),
    {
        let len = s.as_str().unicode_len();
        if len == 0 || len > MAX_NAME_LEN {
            return Err("not a valid subscriber name".to_owned());
        }
        let mut i: usize = 0;
        while i < len
            invariant
                len == s@.len(),
                i <= len,
                forall|j: int| 0 <= j < i ==> !is_forbidden_char(#[trigger] s@[j]),
            decreases len - i,
        {
            if is_forbidden(s.as_str().get_char(i)) {
                return Err("not a valid subscriber name".to_owned());
            }
            i += 1;
        }
        Ok(SubscriberName { inner: s })
    }

    /// The accepted name, as submitted.
    pub fn as_str(&self) -> (r: &str)
        ensures
            r@ == self@,
    {
        self.inner.as_str()
    }
}

/// A validated email address. Values of this type exist only through
/// [`SubscriberEmail::parse`], so holding one proves the address was
/// accepted.
#[derive(Debug)]
pub struct SubscriberEmail {
    inner: String,
}

impl View for SubscriberEmail {
    type V = Seq<char>;

    closed spec fn view(&self) -> Seq<char> {
        self.inner@
    }
}

impl SubscriberEmail {
    /// A well-formed value holds an accepted address.
    pub open spec fn wf(&self) -> bool {
        valid_email(self@)
    }

    /// Accepts `s` exactly when it is a valid email address.
    pub fn parse(s: String) -> (r: Result<SubscriberEmail, String>)
        ensures
            r matches Ok(e) ==> e@ == s@ && e.wf(),
            r is Ok <==> valid_email(s@),
            r matches Err(e) ==> e@ == email_error_message(),
    {
        let len = s.as_str().unicode_len();
        let mut i: usize = 0;
        let mut ats: usize = 0;
        while i < len
            invariant
                len == s@.len(),
                i <= len,
                ats == count_char(s@.take(i as int), '@'),
                ats <= i,
                forall|j: int| 0 <= j < i ==> !is_forbidden_email_char(#[trigger] s@[j]),
            decreases len - i,
        {
            let c = s.as_str().get_char(i);
            if c == ' ' || is_forbidden(c) {
                return Err("not a valid subscriber email".to_owned());
            }
            proof {
                assert(s@.take(i as int + 1).drop_last() =~= s@.take(i as int));
                assert(s@.take(i as int + 1).last() == s@[i as int]);
            }
            if c == '@' {
                ats += 1;
            }
            i += 1;
        }
        proof {
            assert(s@.take(len as int) =~= s@);
        }
        if ats != 1 {
            return Err("not a valid subscriber email".to_owned());
        }
        if s.as_str().get_char(0) == '@' || s.as_str().get_char(len - 1) == '@' {
            return Err("not a valid subscriber email".to_owned());
        }
        Ok(SubscriberEmail { inner: s })
    }

    /// The accepted address, as submitted.
    pub fn as_str(&self) -> (r: &str)
        ensures
            r@ == self@,
    {
        self.inner.as_str()
    }

    /// An owned copy of the accepted address.
    pub fn to_owned_string(&self) -> (r: String)
        ensures
            r@ == self@,
    {
        self.inner.clone()
    }
}

/// A validated subscriber identity, ready to be persisted.
#[derive(Debug)]
pub struct NewSubscriber {
    pub email: SubscriberEmail,
    pub name: SubscriberName,
}

impl NewSubscriber {
    /// Both parts were accepted by the validator.
    pub open spec fn wf(&self) -> bool {
        self.email.wf() && self.name.wf()
    }
}

} // verus!

//! One form for the addresses that reach one mailbox, so that a mailbox
//! cannot register twice.
use vstd::prelude::*;
use vstd::string::StringExecFns;
use crate::lex::str_eq;
use crate::text::before_first;
use crate::text::chars_of;
use crate::text::count_char;
use crate::text::count_of;
use crate::text::find_char;
use crate::text::first_index;
use crate::text::lemma_count_zero;
use crate::text::lemma_first_index_bounds;
use crate::text::remove_char;
use crate::text::take_chars;
use crate::text::without;
use crate::text::lowercased;
use crate::text::owned;
use crate::text::push_char;
use crate::text::string_of;
use crate::text::to_lowercase;
use crate::text::trim;
use crate::text::trimmed;

verus! {

/// The normal form of an address that is trimmed and in lower case.
///
/// An address that does not have exactly one `@` is its own normal form.
/// Otherwise the domain `googlemail.com` becomes `gmail.com`; the local part
/// loses what follows its first `+`, and at `gmail.com` its dots before that.
pub open spec fn normalized(email: Seq<char>) -> Seq<char> {
    if count_of(email, '@') != 1 {
        email
    } else {
        let at = first_index(email, '@');
        let local = email.take(at);
        let domain = email.skip(at + 1);
        let normalized_domain = if domain == "googlemail.com"@ {
            "gmail.com"@
        } else {
            domain
        };
        let normalized_local = if normalized_domain == "gmail.com"@ {
            before_first(without(local, '.'), '+')
        } else {
            before_first(local, '+')
        };
        normalized_local + seq!['@'] + normalized_domain
    }
}

/// The normal form of an address that is trimmed and in lower case already.
pub fn normalize_lowercased(email: &str) -> (r: String)
    ensures
        r@ == normalized(email@),
{
    let chars = chars_of(email);
    if count_char(&chars, '@') != 1 {
        return owned(email);
    }
    let at = find_char(&chars, '@');
    proof {
        lemma_first_index_bounds(chars@, '@');
        if at == chars@.len() {
            lemma_count_zero(chars@, '@');
        }
    }
    let domain = string_of(&chars, at + 1, chars.len());
    assert(domain@ =~= chars@.skip(at + 1));
    let to_gmail = str_eq(domain.as_str(), "googlemail.com");
    let at_gmail = to_gmail || str_eq(domain.as_str(), "gmail.com");
    let local = if at_gmail {
        remove_char(&chars, at, '.')
    } else {
        take_chars(&chars, at)
    };
    let plus = find_char(&local, '+');
    let mut r = string_of(&local, 0, plus);
    assert(r@ =~= before_first(local@, '+'));
    push_char(&mut r, '@');
    if to_gmail {
        r.append("gmail.com");
    } else {
        r.append(domain.as_str());
    }
    proof {
        let nd = if domain@ == "googlemail.com"@ {
            "gmail.com"@
        } else {
            domain@
        };
        assert(r@ =~= before_first(local@, '+') + seq!['@'] + nd);
    }
    r
}

/// The normal form of an address: trimmed, in lower case, and then as
/// `normalized` says.
pub fn normalize_email(email: &str) -> (r: String)
    ensures
        r@ == normalized(lowercased(trimmed(email@))),
{
    let stripped = trim(email);
    let lower = to_lowercase(stripped.as_str());
    normalize_lowercased(lower.as_str())
}

} // verus!

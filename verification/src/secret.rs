//! Secrets handed to the program through files: an environment variable
//! `AUTOMATION__<KEY>__FILE` names a file whose contents become the
//! configuration value `<key>`, with "__" in the key standing for ".".
use vstd::prelude::*;
use crate::text::push_char;

verus! {

/// The lower-case form of a string, as `str::to_lowercase` gives it.
pub uninterp spec fn lowercase(s: Seq<char>) -> Seq<char>;

/// `str::to_lowercase`. Claimed: the result is `lowercase` of the input.
#[verifier::external_body]
fn to_lowercase(s: &str) -> (res: String)
    ensures
        res@ == lowercase(s@),
{
    s.to_lowercase()
}

/// What a secret variable's name starts with (the package name and "__").
pub open spec fn secret_prefix() -> Seq<char> {
    "automation__"@
}

/// What a secret variable's name ends with.
pub open spec fn secret_suffix() -> Seq<char> {
    "__file"@
}

/// `s` with every "__" (taken from left to right) replaced by ".".
pub open spec fn dots_for_double_underscores(s: Seq<char>) -> Seq<char>
    decreases s.len(),
{
    if s.len() == 0 {
        seq![]
    } else if s.len() >= 2 && s[0] == '_' && s[1] == '_' {
        seq!['.'] + dots_for_double_underscores(s.skip(2))
    } else {
        seq![s[0]] + dots_for_double_underscores(s.skip(1))
    }
}

/// Whether a (lower-case) variable name has the secret prefix and suffix.
pub open spec fn is_secret_name(key: Seq<char>) -> bool {
    &&& key.len() >= secret_prefix().len()
    &&& key.take(secret_prefix().len() as int) == secret_prefix()
    &&& key.len() >= secret_suffix().len()
    &&& key.skip(key.len() - secret_suffix().len()) == secret_suffix()
}

/// The configuration key a lower-case variable name stands for, if it is a
/// secret.
pub open spec fn secret_key(key: Seq<char>) -> Option<Seq<char>> {
    if !is_secret_name(key) {
        None
    } else {
        let k = dots_for_double_underscores(
            key.subrange(secret_prefix().len() as int, key.len() - secret_suffix().len()),
        );
        if k.len() == 0 {
            None
        } else {
            Some(k)
        }
    }
}

/// The source of configuration values read from secret files.
pub struct EnvironmentSecretFile {}

impl EnvironmentSecretFile {
    /// The configuration key that the environment variable `name` stands
    /// for, when it can be worked out: `None` for a name whose lower-case
    /// form has the prefix and the suffix overlapping (where cutting them
    /// off fails), else what `key_for_lowercase` gives for that form.
    pub fn key_for(name: &str) -> (res: Option<Option<String>>)
        ensures
            res is None <==> (is_secret_name(lowercase(name@)) && lowercase(name@).len()
                < secret_prefix().len() + secret_suffix().len()),
            res matches Some(r) ==> match secret_key(lowercase(name@)) {
                Some(k) => r matches Some(s) && s@ == k,
                None => r is None,
            },
    {
        let key = to_lowercase(name);
        let key = key.as_str();
        if Self::has_prefix(key) && Self::has_suffix(key) && key.unicode_len() < 18 {
            proof {
                reveal_strlit("automation__");
                reveal_strlit("__file");
            }
            return None;
        }
        proof {
            reveal_strlit("automation__");
            reveal_strlit("__file");
        }
        Some(Self::key_for_lowercase(key))
    }

    /// The configuration key that the lower-case environment variable name
    /// `key` stands for: none unless it starts with "automation__" and ends
    /// with "__file"; else the text between them with "__" turned into ".",
    /// unless that is empty.
    pub fn key_for_lowercase(key: &str) -> (res: Option<String>)
        requires
            is_secret_name(key@) ==> key@.len() >= secret_prefix().len() + secret_suffix().len(),
        ensures
            match secret_key(key@) {
                Some(k) => res matches Some(r) && r@ == k,
                None => res is None,
            },
    {
        proof {
            reveal_strlit("automation__");
            reveal_strlit("__file");
        }
        let n = key.unicode_len();
        if !Self::has_prefix(key) || !Self::has_suffix(key) {
            return None;
        }
        let start: usize = 12;
        let end: usize = n - 6;
        let mut result = String::new();
        let ghost middle = key@.subrange(start as int, end as int);
        let mut i: usize = start;
        assert(middle.skip(0) =~= middle);
        while i < end
            invariant
                start <= i <= end,
                end <= n,
                n == key@.len(),
                middle == key@.subrange(start as int, end as int),
                dots_for_double_underscores(middle) =~= result@ + dots_for_double_underscores(
                    middle.skip(i - start),
                ),
            decreases end - i,
        {
            let c = key.get_char(i);
            let ghost rest = middle.skip(i - start);
            if c == '_' && i + 1 < end && key.get_char(i + 1) == '_' {
                push_char(&mut result, '.');
                assert(rest.skip(2) =~= middle.skip(i + 2 - start));
                i = i + 2;
            } else {
                push_char(&mut result, c);
                assert(rest.skip(1) =~= middle.skip(i + 1 - start));
                i = i + 1;
            }
        }
        assert(middle.skip(end - start) =~= Seq::<char>::empty());
        if result.unicode_len() == 0 {
            None
        } else {
            Some(result)
        }
    }

    fn has_prefix(key: &str) -> (res: bool)
        ensures
            res == (key@.len() >= secret_prefix().len() && key@.take(secret_prefix().len() as int)
                == secret_prefix()),
    {
        proof {
            reveal_strlit("automation__");
        }
        let prefix = "automation__";
        let n = key.unicode_len();
        if n < 12 {
            return false;
        }
        let mut i: usize = 0;
        while i < 12
            invariant
                n == key@.len(),
                n >= 12,
                prefix@ == secret_prefix(),
                prefix@.len() == 12,
                i <= 12,
                forall|j: int| 0 <= j < i ==> key@[j] == prefix@[j],
            decreases 12 - i,
        {
            if key.get_char(i) != prefix.get_char(i) {
                return false;
            }
            i = i + 1;
        }
        assert(key@.take(12) =~= prefix@);
        true
    }

    fn has_suffix(key: &str) -> (res: bool)
        ensures
            res == (key@.len() >= secret_suffix().len() && key@.skip(
                key@.len() - secret_suffix().len(),
            ) == secret_suffix()),
    {
        proof {
            reveal_strlit("__file");
        }
        let suffix = "__file";
        let n = key.unicode_len();
        if n < 6 {
            return false;
        }
        let mut i: usize = 0;
        while i < 6
            invariant
                n == key@.len(),
                n >= 6,
                suffix@ == secret_suffix(),
                suffix@.len() == 6,
                i <= 6,
                forall|j: int| 0 <= j < i ==> key@[n - 6 + j] == suffix@[j],
            decreases 6 - i,
        {
            if key.get_char(n - 6 + i) != suffix.get_char(i) {
                return false;
            }
            i = i + 1;
        }
        assert(key@.skip(n - 6) =~= suffix@);
        true
    }
}

} // verus!

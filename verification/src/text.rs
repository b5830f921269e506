//! String helpers shared by the path and command builders.
use vstd::prelude::*;

verus! {

/// The Unicode lower-case form of a string, as `str::to_lowercase` computes it.
pub uninterp spec fn lowercase_of(s: Seq<char>) -> Seq<char>;

/// What `Path::join` makes of a directory and a name below it, on the
/// platform the library is built for.
pub uninterp spec fn joined_path(base: Seq<char>, leaf: Seq<char>) -> Seq<char>;

/// Calls `str::to_lowercase`. The result is a function of the characters
/// alone; nothing more is claimed about it here.
#[verifier::external_body]
pub(crate) fn to_lower(s: &str) -> (r: String)
    ensures
        r@ == lowercase_of(s@),
{
    s.to_lowercase()
}

/// Calls `str::eq`: two strings are equal exactly when they hold the same
/// characters in the same order.
#[verifier::external_body]
pub(crate) fn same_text(a: &str, b: &str) -> (r: bool)
    ensures
        r == (a@ == b@),
{
    a == b
}

/// Calls `Path::join` on two paths given as text and hands the joined path
/// back as text. Both inputs are valid UTF-8, so nothing is lost on the way
/// back. Only the fact that the result depends on the two inputs alone is
/// claimed.
#[verifier::external_body]
pub(crate) fn join_path(base: &str, leaf: &str) -> (r: String)
    ensures
        r@ == joined_path(base@, leaf@),
{
    std::path::Path::new(base).join(leaf).to_string_lossy().into_owned()
}

/// Whether tilde expansion may touch `s`: a leading `~` that stands alone or
/// is followed by a path separator.
pub open spec fn tilde_led(s: Seq<char>) -> bool {
    &&& s.len() >= 1
    &&& s[0] == '~'
    &&& (s.len() == 1 || s[1] == '/' || s[1] == '\\')
}

/// What can come out of tilde expansion of `s`: the input itself, or, for an
/// input that `tilde_led` admits, some home directory in place of the `~`.
pub open spec fn tilde_outcome(s: Seq<char>, r: Seq<char>) -> bool {
    r == s || (tilde_led(s) && exists|home: Seq<char>| r == home + s.skip(1))
}

/// Calls `shellexpand::tilde`, which replaces a leading `~` by the current
/// user's home directory. Which directory that is depends on the process
/// environment, and without one the input comes back as it is; so the
/// contract only says that everything after the `~` is kept, and that an
/// input without a leading `~` (or with `~name`) is returned unchanged.
#[verifier::external_body]
pub(crate) fn expand_tilde(s: &str) -> (r: String)
    ensures
        tilde_outcome(s@, r@),
{
    shellexpand::tilde(s).into_owned()
}

/// `a` followed by `b`.
pub fn catenate(a: &str, b: &str) -> (r: String)
    ensures
        r@ == a@ + b@,
{
    let mut r = String::from_str(a);
    r.append(b);
    r
}

/// The position of the first `/` of `s` at or after `from`, or the length of
/// `s` if there is none.
pub open spec fn slash_from(s: Seq<char>, from: int) -> int
    decreases s.len() - from,
{
    if from >= s.len() {
        s.len() as int
    } else if s[from] == '/' {
        from
    } else {
        slash_from(s, from + 1)
    }
}

/// The short name of a model: the part of its identifier between the first
/// and the second `/`. An identifier without a `/` has the empty short name.
pub open spec fn model_name_of(id: Seq<char>) -> Seq<char> {
    let a = slash_from(id, 0);
    if a >= id.len() {
        Seq::empty()
    } else {
        id.subrange(a + 1, slash_from(id, a + 1))
    }
}

/// `slash_from` finds the first `/` and nothing else: it stays within the
/// string, stops on a `/` unless it reaches the end, and passes none.
pub proof fn lemma_slash_from_bounds(s: Seq<char>, from: int)
    requires
        0 <= from <= s.len(),
    ensures
        from <= slash_from(s, from) <= s.len(),
        slash_from(s, from) < s.len() ==> s[slash_from(s, from)] == '/',
        forall|j: int| from <= j < slash_from(s, from) ==> s[j] != '/',
    decreases s.len() - from,
{
    if from < s.len() && s[from] != '/' {
        lemma_slash_from_bounds(s, from + 1);
    }
}

/// Whether `s` holds no `/`.
pub open spec fn slash_free(s: Seq<char>) -> bool {
    forall|j: int| 0 <= j < s.len() ==> s[j] != '/'
}

/// The short name is a single segment: it holds no `/`.
pub proof fn lemma_model_name_is_slash_free(id: Seq<char>)
    ensures
        slash_free(model_name_of(id)),
{
    lemma_slash_from_bounds(id, 0);
    let a = slash_from(id, 0);
    if a < id.len() {
        lemma_slash_from_bounds(id, a + 1);
    }
}

/// Of `owner/name` the short name is `name`, and what follows a second `/`
/// does not count.
pub proof fn lemma_model_name_of_pair(owner: Seq<char>, name: Seq<char>, rest: Seq<char>)
    requires
        slash_free(owner),
        slash_free(name),
    ensures
        model_name_of(owner + "/"@ + name) == name,
        model_name_of(owner + "/"@ + name + "/"@ + rest) == name,
        model_name_of(owner) == Seq::<char>::empty(),
{
    reveal_strlit("/");
    let short = owner + "/"@ + name;
    let long = short + "/"@ + rest;
    let cut = owner.len() as int;
    let end = short.len() as int;
    lemma_slash_from_bounds(owner, 0);
    lemma_slash_from_bounds(short, 0);
    lemma_slash_from_bounds(long, 0);
    assert(short[cut] == '/');
    assert(long[cut] == '/');
    assert forall|j: int| 0 <= j < cut implies short[j] != '/' && long[j] != '/' by {
        assert(short[j] == owner[j]);
    }
    assert(slash_from(short, 0) == cut);
    assert(slash_from(long, 0) == cut);
    lemma_slash_from_bounds(short, cut + 1);
    lemma_slash_from_bounds(long, cut + 1);
    assert(long[end] == '/');
    assert forall|j: int| cut + 1 <= j < end implies short[j] != '/' && long[j] != '/' by {
        assert(short[j] == name[j - cut - 1]);
    }
    assert(slash_from(short, cut + 1) == end);
    assert(slash_from(long, cut + 1) == end);
    assert(model_name_of(short) =~= name);
    assert(model_name_of(long) =~= name);
}

fn find_slash(s: &str, from: usize, len: usize) -> (r: usize)
    requires
        from <= len,
        len == s@.len(),
    ensures
        r == slash_from(s@, from as int),
        from <= r <= len,
{
    let mut i: usize = from;
    while i < len && s.get_char(i) != '/'
        invariant
            from <= i <= len,
            len == s@.len(),
            slash_from(s@, from as int) == slash_from(s@, i as int),
        decreases len - i,
    {
        i += 1;
    }
    i
}

/// Derives the short name of a model from its identifier (`owner/name`).
pub fn model_name(model_id: &str) -> (r: String)
    ensures
        r@ == model_name_of(model_id@),
{
    let len = model_id.unicode_len();
    let a = find_slash(model_id, 0, len);
    if a >= len {
        String::new()
    } else {
        let b = find_slash(model_id, a + 1, len);
        String::from_str(model_id.substring_char(a + 1, b))
    }
}

} // verus!

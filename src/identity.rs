use vstd::prelude::*;

verus! {

/// A contest participant: a handle on a home server. Two identities are the
/// same when both fields are equal, case included.
#[derive(Debug)]
pub struct Identity {
    pub handle: String,
    pub instance: String,
}

impl View for Identity {
    type V = (Seq<char>, Seq<char>);

    open spec fn view(&self) -> (Seq<char>, Seq<char>) {
        (self.handle@, self.instance@)
    }
}

impl Identity {
    pub fn new(handle: String, instance: String) -> (r: Identity)
        ensures
            r.handle@ == handle@,
            r.instance@ == instance@,
    {
        Identity { handle, instance }
    }

    /// A copy with the same handle and instance.
    pub fn duplicate(&self) -> (r: Identity)
        ensures
            r@ == self@,
    {
        Identity { handle: self.handle.clone(), instance: self.instance.clone() }
    }

    /// True iff both handles and both instances are equal.
    pub fn same_as(&self, other: &Identity) -> (r: bool)
        ensures
            r == (self@ == other@),
    {
        self.handle == other.handle && self.instance == other.instance
    }
}

/// The signed-in user that a session carries: an identity and the moment,
/// in seconds since the Unix epoch, after which the session is void.
#[derive(Debug)]
pub struct User {
    pub handle: String,
    pub instance: String,
    pub exp: i64,
}

impl User {
    pub fn new(handle: String, instance: String, exp: i64) -> (r: User)
        ensures
            r.handle@ == handle@,
            r.instance@ == instance@,
            r.exp == exp,
    {
        User { handle, instance, exp }
    }

    pub fn exp(&self) -> (r: i64)
        ensures
            r == self.exp,
    {
        self.exp
    }

    /// The identity that this user signs in as.
    pub fn identity(&self) -> (r: Identity)
        ensures
            r@ == (self.handle@, self.instance@),
    {
        Identity { handle: self.handle.clone(), instance: self.instance.clone() }
    }
}

/// `handle@instance`: the text from which a viewer's listing order is seeded.
pub open spec fn seed_text(handle: Seq<char>, instance: Seq<char>) -> Seq<char> {
    handle + seq!['@'] + instance
}

/// Writes `handle@instance`.
pub fn viewer_seed(user: &User) -> (r: String)
    ensures
        r@ == seed_text(user.handle@, user.instance@),
{
    let mut s = user.handle.clone();
    proof {
        reveal_strlit("@");
    }
    s.append("@");
    s.append(user.instance.as_str());
    s
}

/// `i` is where the hostname starts in `s`: just after the last `@`, or at the
/// start when `s` holds none.
pub open spec fn is_host_start(s: Seq<char>, i: int) -> bool {
    &&& 0 <= i <= s.len()
    &&& (i == 0 || s[i - 1] == '@')
    &&& forall|j: int| i <= j < s.len() ==> s[j] != '@'
}

/// The hostname in `handle@hostname`, `@handle@hostname` or a bare hostname:
/// what follows the last `@`, or the whole input when it holds none.
pub fn instance_name(input: &str) -> (r: String)
    ensures
        exists|i: int| is_host_start(input@, i) && r@ == input@.subrange(i, input@.len() as int),
{
    let n = input.unicode_len();
    let mut i: usize = n;
    while i > 0 && input.get_char(i - 1) != '@'
        invariant
            i <= n,
            n == input@.len(),
            forall|j: int| i <= j < n ==> input@[j] != '@',
        decreases i,
    {
        i = i - 1;
    }
    let r = input.substring_char(i, n).to_string();
    assert(is_host_start(input@, i as int));
    r
}

} // verus!

use vstd::prelude::*;

verus! {

/// Two-valued status of the `CK` and `CO` registers.
#[derive(Copy, Clone, PartialEq, Eq, Debug, Structural)]
pub enum Status {
    /// No failure.
    Success,
    /// A failure has been registered.
    Fail,
}

impl Status {
    /// Whether the status is `Ok`.
    pub fn is_ok(self) -> (r: bool)
        ensures
            r <==> self == Status::Success,
    {
        self == Status::Success
    }

    /// Logical negation of a status.
    pub open spec fn negated(self) -> Status {
        match self {
            Status::Success => Status::Fail,
            Status::Fail => Status::Success,
        }
    }
}

impl core::ops::Not for Status {
    type Output = Status;

    fn not(self) -> (r: Status)
        ensures
            r == self.negated(),
    {
        match self {
            Status::Success => Status::Fail,
            Status::Fail => Status::Success,
        }
    }
}

impl vstd::std_specs::ops::NotSpecImpl for Status {
    open spec fn obeys_not_spec() -> bool {
        true
    }

    open spec fn not_req(self) -> bool {
        true
    }

    open spec fn not_spec(self) -> Status {
        self.negated()
    }
}

/// Relies on `String::from_iter` over characters: the string made of them, in order.
#[verifier::external_body]
pub(crate) fn string_of(chars: &Vec<char>) -> (r: String)
    ensures
        r@ == chars@,
{
    String::from_iter(chars.iter())
}

/// Marker for the types that identify a program (a library) in a [`Site`].
pub trait SiteId: Copy {}

/// Identifier of a library: a content-addressed digest of its segments.
#[derive(Copy, Clone, Eq, PartialOrd, Ord, Hash, Debug)]
pub struct LibId {
    pub bytes: [u8; 30],
}

impl PartialEq for LibId {
    fn eq(&self, o: &LibId) -> (r: bool) {
        let mut i: usize = 0;
        while i < 30
            invariant
                i <= 30,
                forall|j: int| 0 <= j < i ==> self.bytes@[j] == o.bytes@[j],
            decreases 30 - i,
        {
            if self.bytes[i] != o.bytes[i] {
                return false;
            }
            i += 1;
        }
        proof {
            assert(self.bytes =~= o.bytes);
        }
        true
    }
}

impl vstd::std_specs::cmp::PartialEqSpecImpl for LibId {
    open spec fn obeys_eq_spec() -> bool {
        true
    }

    open spec fn eq_spec(&self, o: &LibId) -> bool {
        *self == *o
    }
}

impl SiteId for LibId {}

/// A location in a program: an identifier of the program and a byte offset in its code segment.
#[derive(Copy, Clone, PartialEq, Eq, PartialOrd, Ord, Hash, Debug)]
pub struct Site<Id> {
    pub prog_id: Id,
    pub offset: u16,
}

impl<Id> Site<Id> {
    pub fn new(prog_id: Id, offset: u16) -> (r: Self)
        ensures
            r.prog_id == prog_id,
            r.offset == offset,
    {
        Site { prog_id, offset }
    }
}

/// A location in a library.
pub type LibSite = Site<LibId>;

} // verus!

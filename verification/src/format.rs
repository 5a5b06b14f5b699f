//! Identifiers and byte ranges shared by every storage backend.

use vstd::prelude::*;

verus! {

/// Opaque, immutable token that names one stored object.
#[derive(Debug, PartialEq, Eq, Hash)]
pub struct ObjectId {
    token: String,
}

impl View for ObjectId {
    type V = Seq<char>;

    closed spec fn view(&self) -> Seq<char> {
        self.token@
    }
}

impl DeepView for ObjectId {
    type V = Seq<char>;

    open spec fn deep_view(&self) -> Seq<char> {
        self@
    }
}

impl Clone for ObjectId {
    fn clone(&self) -> (copy: Self)
        ensures
            copy == *self,
    {
        ObjectId { token: self.token.clone() }
    }
}

impl ObjectId {
    /// The identifier spelled by `token`.
    pub fn new(token: &str) -> (id: Self)
        ensures
            id@ == token@,
    {
        ObjectId { token: token.to_owned() }
    }

    /// The token this identifier was made from.
    pub fn as_str(&self) -> (token: &str)
        ensures
            token@ == self@,
    {
        self.token.as_str()
    }
}

/// Part of an object's bytes: from `start` up to, but not including, `end`,
/// or to the end of the object when there is no `end`.
#[derive(Clone, Copy, Debug, PartialEq, Eq)]
pub struct ByteRange {
    start: u64,
    end: Option<u64>,
}

impl ByteRange {
    #[verifier::type_invariant]
    spec fn ordered(self) -> bool {
        self.end matches Some(end) ==> self.start <= end
    }

    /// Offset of the first byte of the range.
    pub closed spec fn first(self) -> u64 {
        self.start
    }

    /// Offset just past the last byte, if the range is bounded.
    pub closed spec fn limit(self) -> Option<u64> {
        self.end
    }

    /// The range that starts at `start` and runs to the end of the object.
    pub fn from_offset(start: u64) -> (range: Self)
        ensures
            range.first() == start,
            range.limit() is None,
    {
        ByteRange { start, end: None }
    }

    /// The range `start..end`, or `None` when `end` lies before `start`.
    pub fn bounded(start: u64, end: u64) -> (range: Option<Self>)
        ensures
            range is Some <==> start <= end,
            range matches Some(r) ==> r.first() == start && r.limit() == Some(end),
    {
        if start <= end {
            Some(ByteRange { start, end: Some(end) })
        } else {
            None
        }
    }

    /// Offset of the first byte of the range.
    pub fn start(&self) -> (start: u64)
        ensures
            start == self.first(),
            self.limit() matches Some(end) ==> start <= end,
    {
        proof {
            use_type_invariant(self);
        }
        self.start
    }

    /// Offset just past the last byte, or `None` for "to the end of the object".
    pub fn end(&self) -> (end: Option<u64>)
        ensures
            end == self.limit(),
            end matches Some(e) ==> self.first() <= e,
    {
        proof {
            use_type_invariant(self);
        }
        self.end
    }
}

} // verus!

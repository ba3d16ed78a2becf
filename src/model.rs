use vstd::prelude::*;

verus! {

/// Lifecycle state of an envelope: `Pending` on ingress, `Completed` once a
/// result has been attached.
#[derive(Clone, Copy, Debug, PartialEq, Eq, Structural)]
pub enum QueryState {
    Pending,
    Completed,
}

impl QueryState {
    /// The lower-case name used on the wire.
    pub open spec fn spec_name(self) -> Seq<char> {
        match self {
            QueryState::Pending => "pending"@,
            QueryState::Completed => "completed"@,
        }
    }

    /// The lower-case name of the state, as a `String`.
    pub fn into_string(self) -> (r: String)
        ensures
            r@ == self.spec_name(),
    {
        match self {
            QueryState::Pending => String::from_str("pending"),
            QueryState::Completed => String::from_str("completed"),
        }
    }
}

/// The sender's submission time, as seconds and nanoseconds since the Unix
/// epoch. The relay passes it through unchanged.
#[derive(Clone, Copy, Debug, PartialEq, Eq, Structural)]
pub struct Timestamp {
    pub secs: i64,
    pub nanos: u32,
}

/// A query envelope, in both directions: the request as it arrives and the
/// same envelope with its result attached.
///
/// `query` holds the JSON text of the query document; the relay never looks
/// inside it.
#[derive(Clone, Debug)]
pub struct FeasibilityRequest {
    pub id: u128,
    pub date: Timestamp,
    pub query: String,
    pub status: QueryState,
    pub result_code: Option<u16>,
    pub result_body: Option<String>,
    pub result_duration: Option<u32>,
}

impl FeasibilityRequest {
    /// A completed envelope carries a code and a body; a pending one neither.
    pub open spec fn wf(&self) -> bool {
        match self.status {
            QueryState::Completed => self.result_code.is_some() && self.result_body.is_some(),
            QueryState::Pending => self.result_code.is_none() && self.result_body.is_none(),
        }
    }

    /// The parts of an envelope that the sender set and that no processing
    /// changes.
    pub open spec fn same_request(&self, other: &FeasibilityRequest) -> bool {
        &&& self.id == other.id
        &&& self.date == other.date
        &&& self.query@ == other.query@
        &&& self.result_duration == other.result_duration
    }

    /// The envelope completed with `code` and `body`.
    pub open spec fn spec_completed(&self, code: u16, body: Seq<char>) -> bool {
        &&& self.status == QueryState::Completed
        &&& self.result_code == Some(code)
        &&& self.result_body.is_some()
        &&& self.result_body.unwrap()@ == body
    }

    /// Attaches a result: the envelope becomes `Completed` with the given
    /// status code and body. Everything the sender set stays as it was.
    pub fn complete(&mut self, code: u16, body: String)
        ensures
            final(self).same_request(old(self)),
            final(self).spec_completed(code, body@),
            final(self).wf(),
    {
        self.status = QueryState::Completed;
        self.result_code = Some(code);
        self.result_body = Some(body);
    }
}

} // verus!

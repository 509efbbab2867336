//! Failures and their causes.

use vstd::prelude::*;
use crate::engine::FailureKind;

verus! {

/// The view of each text of a list.
pub open spec fn texts(v: Seq<String>) -> Seq<Seq<char>> {
    v.map_values(|s: String| s@)
}

/// The text that separates two causes in a flattened cause chain.
pub open spec fn cause_separator() -> Seq<char> {
    " | "@
}

/// The causes of a failure joined into one text, outermost first.
pub open spec fn joined_causes(causes: Seq<Seq<char>>) -> Seq<char>
    decreases causes.len(),
{
    if causes.len() == 0 {
        Seq::empty()
    } else if causes.len() == 1 {
        causes[0]
    } else {
        joined_causes(causes.drop_last()) + cause_separator() + causes.last()
    }
}

/// A failure with the chain of its causes: what failed, then why, then why that.
#[derive(Debug)]
pub struct Failure {
    /// The causes, the outermost first.
    pub causes: Vec<String>,
}

impl View for Failure {
    type V = Seq<Seq<char>>;

    open spec fn view(&self) -> Seq<Seq<char>> {
        texts(self.causes@)
    }
}

impl Clone for Failure {
    fn clone(&self) -> (copy: Self)
        ensures
            copy@ == self@,
    {
        let n = self.causes.len();
        let mut causes: Vec<String> = Vec::new();
        let mut i: usize = 0;
        while i < n
            invariant
                n == self.causes.len(),
                i <= n,
                causes@ == self.causes@.take(i as int),
            decreases n - i,
        {
            causes.push(self.causes[i].clone());
            proof {
                assert(causes@ =~= self.causes@.take(i + 1));
            }
            i += 1;
        }
        proof {
            assert(self.causes@.take(n as int) =~= self.causes@);
        }
        Failure { causes }
    }
}

impl Failure {
    /// A failure with one cause.
    pub fn new(message: &str) -> (failure: Self)
        ensures
            failure@ == seq![message@],
    {
        let mut causes: Vec<String> = Vec::new();
        causes.push(message.to_owned());
        proof {
            assert(texts(causes@) =~= seq![message@]);
        }
        Failure { causes }
    }

    /// The same failure, seen from further out: `message` says what was being
    /// done when it happened.
    pub fn context(self, message: &str) -> (failure: Self)
        ensures
            failure@ == seq![message@] + self@,
    {
        let mut causes = self.causes;
        let ghost inner = causes@;
        causes.insert(0, message.to_owned());
        proof {
            assert(texts(causes@) =~= seq![message@] + texts(inner));
        }
        Failure { causes }
    }

    /// All causes in one text, the outermost first, with " | " between them.
    pub fn to_string(&self) -> (flat: String)
        ensures
            flat@ == joined_causes(self@),
    {
        let mut flat = String::new();
        let n = self.causes.len();
        let mut i: usize = 0;
        while i < n
            invariant
                n == self.causes.len(),
                i <= n,
                flat@ == joined_causes(self@.take(i as int)),
            decreases n - i,
        {
            let ghost before = self@.take(i as int);
            let ghost after = self@.take(i + 1);
            proof {
                assert(after.drop_last() =~= before);
                assert(after.last() == self.causes@[i as int]@);
            }
            if i > 0 {
                flat.append(" | ");
            }
            flat.append(self.causes[i].as_str());
            proof {
                if i == 0 {
                    assert(flat@ =~= self.causes@[0]@);
                }
            }
            i += 1;
        }
        proof {
            assert(self@.take(n as int) =~= self@);
        }
        flat
    }
}

/// What was being done when an upload of the given kind of failure was given up.
pub open spec fn failure_context(kind: FailureKind) -> Seq<char> {
    match kind {
        FailureKind::ConnectFailed => "Failed to create BigQuery client"@,
        FailureKind::ReconnectFailed => "Failed to recreate BigQuery client"@,
        FailureKind::TooLargeAtMinimumSize => "Batch too large even at minimum size"@,
        FailureKind::TooManyConnectionResets => "Too many connection resets"@,
        FailureKind::RetriesExhausted => "Failed to upload to BigQuery"@,
        FailureKind::Fatal => "Failed to upload to BigQuery"@,
    }
}

/// The text of [`failure_context`].
pub fn describe_failure(kind: FailureKind) -> (text: &'static str)
    ensures
        text@ == failure_context(kind),
{
    match kind {
        FailureKind::ConnectFailed => "Failed to create BigQuery client",
        FailureKind::ReconnectFailed => "Failed to recreate BigQuery client",
        FailureKind::TooLargeAtMinimumSize => "Batch too large even at minimum size",
        FailureKind::TooManyConnectionResets => "Too many connection resets",
        FailureKind::RetriesExhausted => "Failed to upload to BigQuery",
        FailureKind::Fatal => "Failed to upload to BigQuery",
    }
}

/// The chain is that of an upload that was given up: it begins by saying that
/// a batch failed and in what way.
pub open spec fn is_upload_failure(chain: Seq<Seq<char>>) -> bool {
    exists|kind: FailureKind|
        chain.len() >= 2 && chain[0] == "Failed to upload batch"@ && chain[1]
            == #[trigger] failure_context(kind)
}

/// An upload that was given up, with the batch and the counters of the attempt
/// at which that happened.
#[derive(Debug)]
pub struct UploadError {
    pub kind: FailureKind,
    /// The number of the batch, counted from 1.
    pub batch_num: usize,
    /// The retries that the attempt had used on its last connection.
    pub retry_count: u32,
    /// The connections that the attempt had replaced.
    pub connection_reset_count: u32,
    /// The failure that ended the upload.
    pub cause: Failure,
}

impl UploadError {
    /// The whole chain: that a batch failed, in what way, and the causes.
    pub open spec fn chain(self) -> Seq<Seq<char>> {
        seq!["Failed to upload batch"@, failure_context(self.kind)] + self.cause@
    }

    /// The error as a failure whose outer causes say what the engine was doing.
    pub fn to_failure(&self) -> (failure: Failure)
        ensures
            failure@ == self.chain(),
            is_upload_failure(failure@),
    {
        let failure = self.cause.clone().context(describe_failure(self.kind)).context(
            "Failed to upload batch",
        );
        proof {
            assert(failure@ =~= self.chain());
            assert(self.chain()[1] == failure_context(self.kind));
        }
        failure
    }

    /// The whole chain in one text.
    pub fn to_string(&self) -> (flat: String)
        ensures
            flat@ == joined_causes(self.chain()),
    {
        self.to_failure().to_string()
    }
}

} // verus!

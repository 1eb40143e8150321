//! An error as a chain of causes, outermost first.
//!
//! Each cause carries the text it displays and a marker for the few kinds of
//! cause that the classification looks for by type rather than by text.
use vstd::prelude::*;

use crate::text::{join, views};

verus! {

/// What kind of cause a link of the chain is.
#[derive(Debug, Clone, Copy, PartialEq, Eq, Structural)]
pub enum CauseKind {
    /// A cause known only by its message.
    Message,
    /// The Secure Enclave refused to sign because the device is locked.
    SecureEnclaveKeyLocked,
    /// The platform secret store could not be reached.
    SecretStoreUnavailable,
}

/// One link of an error chain.
#[derive(Debug, Clone)]
pub struct ErrorCause {
    pub message: String,
    pub kind: CauseKind,
}

/// An error: a non-empty chain of causes, the outermost context first and the
/// root cause last.
#[derive(Debug)]
pub struct ErrorReport {
    causes: Vec<ErrorCause>,
}

/// The message that the device-locked marker displays.
pub const SECURE_ENCLAVE_KEY_LOCKED_MESSAGE: &'static str =
    "The Mac is locked, so the Secure Enclave signing key cannot be used. Unlock the Mac and retry.";

/// An error every link of which is a plain message: neither the secret store
/// nor the locked device marks it, so only its text decides how it is
/// classified.
pub open spec fn plain_report(e: ErrorReport) -> bool {
    forall|i: int| 0 <= i < e.kinds().len() ==> #[trigger] e.kinds()[i] == CauseKind::Message
}

/// A result whose error, if any, is a plain message chain.
pub open spec fn plain_errors<T>(r: Result<T, ErrorReport>) -> bool {
    match r {
        Ok(_) => true,
        Err(e) => plain_report(e),
    }
}

impl ErrorReport {
    #[verifier::type_invariant]
    spec fn chain_is_non_empty(self) -> bool {
        self.causes.len() > 0
    }

    /// The messages of the chain, outermost first.
    pub closed spec fn messages(self) -> Seq<Seq<char>> {
        self.causes@.map_values(|c: ErrorCause| c.message@)
    }

    /// The kinds of the chain's links, outermost first.
    pub closed spec fn kinds(self) -> Seq<CauseKind> {
        self.causes@.map_values(|c: ErrorCause| c.kind)
    }

    /// An error made of one message.
    pub fn msg(message: &str) -> (res: Self)
        ensures
            res.messages() == seq![message@],
            res.kinds() == seq![CauseKind::Message],
    {
        Self::marked(message, CauseKind::Message)
    }

    /// An error made of one cause of the given kind.
    pub fn marked(message: &str, kind: CauseKind) -> (res: Self)
        ensures
            res.messages() == seq![message@],
            res.kinds() == seq![kind],
    {
        let mut causes: Vec<ErrorCause> = Vec::new();
        causes.push(ErrorCause { message: message.to_owned(), kind });
        let res = ErrorReport { causes };
        proof {
            assert(res.messages() =~= seq![message@]);
            assert(res.kinds() =~= seq![kind]);
        }
        res
    }

    /// The error wrapped in one more context message.
    pub fn context(self, message: &str) -> (res: Self)
        ensures
            res.messages() == seq![message@] + self.messages(),
            res.kinds() == seq![CauseKind::Message] + self.kinds(),
    {
        self.context_marked(message, CauseKind::Message)
    }

    /// The error wrapped in one more context of the given kind.
    pub fn context_marked(self, message: &str, kind: CauseKind) -> (res: Self)
        ensures
            res.messages() == seq![message@] + self.messages(),
            res.kinds() == seq![kind] + self.kinds(),
    {
        let mut causes: Vec<ErrorCause> = Vec::new();
        causes.push(ErrorCause { message: message.to_owned(), kind });
        let mut i: usize = 0;
        while i < self.causes.len()
            invariant
                i <= self.causes.len(),
                causes.len() == i + 1,
                causes@[0].message@ == message@,
                causes@[0].kind == kind,
                forall|k: int|
                    #![trigger causes@[k]]
                    1 <= k <= i ==> causes@[k].message@ == self.causes@[k - 1].message@
                        && causes@[k].kind == self.causes@[k - 1].kind,
            decreases self.causes.len() - i,
        {
            let m = self.causes[i].message.clone();
            let kd: CauseKind = self.causes[i].kind;
            let cause = ErrorCause { message: m, kind: kd };
            causes.push(cause);
            proof {
                assert(causes@[i + 1].message@ == self.causes@[i as int].message@);
                assert(causes@[i + 1].kind == self.causes@[i as int].kind);
            }
            i = i + 1;
        }
        let res = ErrorReport { causes };
        proof {
            assert forall|k: int| 0 <= k < res.messages().len() implies res.messages()[k] == (
            seq![message@] + self.messages())[k] by {
                if k > 0 {
                    assert(causes@[k].message@ == self.causes@[k - 1].message@);
                }
            }
            assert(res.messages() =~= seq![message@] + self.messages());
            assert forall|k: int| 0 <= k < res.kinds().len() implies res.kinds()[k] == (seq![kind]
                + self.kinds())[k] by {
                if k > 0 {
                    assert(causes@[k].kind == self.causes@[k - 1].kind);
                }
            }
            assert(res.kinds() =~= seq![kind] + self.kinds());
        }
        res
    }

    /// The number of links; never zero.
    pub fn len(&self) -> (res: usize)
        ensures
            res == self.messages().len(),
            res > 0,
    {
        proof {
            use_type_invariant(self);
        }
        self.causes.len()
    }

    /// The messages of the chain, outermost first.
    pub fn chain(&self) -> (res: Vec<String>)
        ensures
            views(res@) == self.messages(),
            res.len() > 0,
    {
        proof {
            use_type_invariant(self);
        }
        let mut res: Vec<String> = Vec::new();
        let mut i: usize = 0;
        while i < self.causes.len()
            invariant
                i <= self.causes.len(),
                res.len() == i,
                forall|k: int| 0 <= k < i ==> #[trigger] res@[k]@ == self.causes@[k].message@,
            decreases self.causes.len() - i,
        {
            res.push(self.causes[i].message.clone());
            i = i + 1;
        }
        proof {
            assert(views(res@) =~= self.messages());
        }
        res
    }

    /// Whether a link of the chain has the given kind.
    pub fn has_kind(&self, kind: CauseKind) -> (res: bool)
        ensures
            res == self.kinds().contains(kind),
    {
        let mut i: usize = 0;
        while i < self.causes.len()
            invariant
                i <= self.causes.len(),
                forall|k: int| 0 <= k < i ==> self.causes@[k].kind != kind,
            decreases self.causes.len() - i,
        {
            if self.causes[i].kind == kind {
                proof {
                    assert(self.kinds()[i as int] == kind);
                }
                return true;
            }
            i = i + 1;
        }
        proof {
            assert forall|k: int| 0 <= k < self.kinds().len() implies self.kinds()[k] != kind by {
                assert(self.causes@[k].kind != kind);
            }
        }
        false
    }

    /// What the error displays: its outermost message.
    pub fn to_string(&self) -> (res: String)
        ensures
            res@ == self.messages()[0],
    {
        proof {
            use_type_invariant(self);
        }
        self.causes[0].message.clone()
    }
}

/// The whole chain on one line: the messages joined by `": "`.
pub open spec fn spec_full_text(messages: Seq<Seq<char>>) -> Seq<char> {
    join(messages, ": "@)
}

/// The causes below the outermost message, one per indented line.
pub open spec fn caused_by_lines(causes: Seq<Seq<char>>) -> Seq<char>
    decreases causes.len(),
{
    if causes.len() == 0 {
        Seq::empty()
    } else {
        caused_by_lines(causes.drop_last()) + "\n  "@ + causes.last()
    }
}

/// The chain for a person to read: the outermost message, then, when there
/// are deeper causes, a `Caused by:` block that lists them in order.
pub open spec fn spec_display_text(messages: Seq<Seq<char>>) -> Seq<char> {
    if messages.len() <= 1 {
        if messages.len() == 0 {
            Seq::empty()
        } else {
            messages[0]
        }
    } else {
        messages[0] + "\n\nCaused by:"@ + caused_by_lines(messages.drop_first())
    }
}

/// The whole chain on one line, the messages joined by `": "`.
pub fn full_error_text(err: &ErrorReport) -> (res: String)
    ensures
        res@ == spec_full_text(err.messages()),
{
    let chain = err.chain();
    crate::text::join_strings(&chain, ": ")
}

/// The chain laid out for a terminal: the outermost message, then each deeper
/// cause on an indented line under `Caused by:`.
pub fn format_error_chain_for_display(err: &ErrorReport) -> (res: String)
    ensures
        res@ == spec_display_text(err.messages()),
{
    let chain = err.chain();
    let mut formatted = chain[0].clone();
    if chain.len() == 1 {
        return formatted;
    }
    formatted.append("\n\nCaused by:");
    let ghost head = formatted@;
    let ghost causes = views(chain@).drop_first();
    let mut i: usize = 1;
    while i < chain.len()
        invariant
            1 <= i <= chain.len(),
            causes == views(chain@).drop_first(),
            formatted@ == head + caused_by_lines(causes.take(i - 1)),
        decreases chain.len() - i,
    {
        formatted.append("\n  ");
        formatted.append(chain[i].as_str());
        proof {
            assert(causes.take(i as int).drop_last() =~= causes.take(i - 1));
        }
        i = i + 1;
    }
    proof {
        assert(causes.take(chain.len() - 1) =~= causes);
    }
    formatted
}

} // verus!

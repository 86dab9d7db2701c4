//! The error that a client keeps for its caller, and the form in which a
//! foreign caller can read it.

use crate::text::join;
use vstd::prelude::*;
use vstd::string::StringExecFns;
use vstd::utf8::encode_utf8;

verus! {

/// The bytes shown in place of a message that cannot be handed to a foreign
/// caller: `error message cannot be displayed`, with its terminator.
pub const CANNOT_DISPLAY: [u8; 34] = [
    101, 114, 114, 111, 114, 32, 109, 101, 115, 115, 97, 103, 101, 32, 99, 97, 110, 110, 111,
    116, 32, 98, 101, 32, 100, 105, 115, 112, 108, 97, 121, 101, 100, 0,
];

/// A byte string that a foreign caller can read up to its terminator: it ends
/// with a zero byte and holds no other.
pub open spec fn terminated(bytes: Seq<u8>) -> bool {
    &&& bytes.len() > 0
    &&& bytes.last() == 0
    &&& forall|i: int| 0 <= i < bytes.len() - 1 ==> bytes[i] != 0
}

/// The foreign form of `text`: its UTF-8 bytes and a terminator, unless one of
/// those bytes is zero, in which case there is none.
pub open spec fn foreign_form(text: Seq<char>) -> Option<Seq<u8>> {
    let bytes = encode_utf8(text);
    if bytes.contains(0u8) {
        None
    } else {
        Some(bytes.push(0u8))
    }
}

/// A message in foreign-safe form: terminated by a zero byte, with no zero
/// byte inside.
pub struct ForeignText {
    bytes: Vec<u8>,
}

impl View for ForeignText {
    type V = Seq<u8>;

    closed spec fn view(&self) -> Seq<u8> {
        self.bytes@
    }
}

impl ForeignText {
    #[verifier::type_invariant]
    spec fn well_formed(self) -> bool {
        terminated(self.bytes@)
    }

    /// Converts `text`, or gives `None` where its bytes hold a zero.
    pub fn new(text: &str) -> (made: Option<ForeignText>)
        ensures
            (match made {
                Some(t) => Some(t@),
                None => None,
            }) == foreign_form(text@),
    {
        let source = text.as_bytes();
        let mut bytes: Vec<u8> = Vec::new();
        let mut i: usize = 0;
        while i < source.len()
            invariant
                source@ == encode_utf8(text@),
                i <= source.len(),
                bytes@ == source@.take(i as int),
                forall|k: int| 0 <= k < i ==> source@[k] != 0,
            decreases source.len() - i,
        {
            let b = source[i];
            if b == 0 {
                assert(source@.contains(0u8));
                return None;
            }
            bytes.push(b);
            i += 1;
            assert(bytes@ == source@.take(i as int));
        }
        assert(source@.take(i as int) == source@);
        assert(!source@.contains(0u8));
        bytes.push(0);
        Some(ForeignText { bytes })
    }

    /// The bytes, terminator included.
    pub fn as_bytes(&self) -> (bytes: &[u8])
        ensures
            bytes@ == self@,
            terminated(bytes@),
    {
        proof {
            use_type_invariant(self);
        }
        self.bytes.as_slice()
    }
}

/// The last error of a client.
pub enum ErrorMsg {
    /// A message that was not yet asked for.
    Native(String),
    /// A message in the form in which a foreign caller reads it.
    Foreign(ForeignText),
    /// A message that could not be brought into that form.
    Invalid,
}

/// The model of an [`ErrorMsg`].
pub enum ErrorView {
    Native(Seq<char>),
    Foreign(Seq<u8>),
    Invalid,
}

impl View for ErrorMsg {
    type V = ErrorView;

    open spec fn view(&self) -> ErrorView {
        match self {
            ErrorMsg::Native(message) => ErrorView::Native(message@),
            ErrorMsg::Foreign(text) => ErrorView::Foreign(text@),
            ErrorMsg::Invalid => ErrorView::Invalid,
        }
    }
}

/// What an error becomes when its text is asked for: a native message takes
/// its foreign form, or is marked as not displayable; a materialized error
/// stays as it is.
pub open spec fn materialized(e: ErrorView) -> ErrorView {
    match e {
        ErrorView::Native(message) => match foreign_form(message) {
            Some(bytes) => ErrorView::Foreign(bytes),
            None => ErrorView::Invalid,
        },
        other => other,
    }
}

/// The bytes that a foreign caller reads of an error.
pub open spec fn displayed(e: ErrorView) -> Seq<u8> {
    match materialized(e) {
        ErrorView::Foreign(bytes) => bytes,
        _ => CANNOT_DISPLAY@,
    }
}

impl ErrorMsg {
    /// An error with a fixed message.
    pub fn from_str(message: &str) -> (e: ErrorMsg)
        ensures
            e@ == ErrorView::Native(message@),
    {
        ErrorMsg::Native(String::from_str(message))
    }

    /// An error with a message built for the occasion.
    pub fn from_string(message: String) -> (e: ErrorMsg)
        ensures
            e@ == ErrorView::Native(message@),
    {
        ErrorMsg::Native(message)
    }

    /// An error whose message is `head` followed by `detail`, the words of
    /// whoever found the fault.
    pub fn with_detail(head: &str, detail: &str) -> (e: ErrorMsg)
        ensures
            e@ == ErrorView::Native(head@ + detail@),
    {
        ErrorMsg::Native(join(head, detail))
    }

    /// Brings the error into the form that a foreign caller can read.
    pub fn materialize(self) -> (e: ErrorMsg)
        ensures
            e@ == materialized(self@),
            !(e is Native),
    {
        match self {
            ErrorMsg::Native(message) => match ForeignText::new(message.as_str()) {
                Some(text) => ErrorMsg::Foreign(text),
                None => ErrorMsg::Invalid,
            },
            other => other,
        }
    }

    /// The bytes of a materialized error; `None` for a native one.
    pub fn bytes(&self) -> (bytes: Option<&[u8]>)
        ensures
            self is Native <==> bytes is None,
            bytes matches Some(b) ==> b@ == displayed(self@) && terminated(b@),
    {
        match self {
            ErrorMsg::Native(_) => None,
            ErrorMsg::Foreign(text) => Some(text.as_bytes()),
            ErrorMsg::Invalid => {
                let sentinel: &[u8] = &CANNOT_DISPLAY;
                Some(sentinel)
            },
        }
    }
}

} // verus!

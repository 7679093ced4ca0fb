use vstd::prelude::*;
use vstd::string::StringSliceAdditionalSpecFns;

use crate::encode::{encode_text, encodes, nul_free};
use crate::error::{FastTextError, TextArgument};
use crate::protocol::{handle_result, NativeResult};

verus! {

/// The identity of one native engine instance: the address that the native
/// side handed out for it, where zero stands for the null handle.
#[allow(non_camel_case_types)]
#[derive(Debug)]
pub struct fasttext_t {
    addr: usize,
}

impl fasttext_t {
    pub closed spec fn spec_addr(&self) -> usize {
        self.addr
    }

    /// The address of the native engine instance.
    pub fn addr(&self) -> (r: usize)
        ensures
            r == self.spec_addr(),
    {
        self.addr
    }

    /// Whether this is the null handle.
    pub fn is_null(&self) -> (r: bool)
        ensures
            r == (self.spec_addr() == 0),
    {
        self.addr == 0
    }
}

/// The sole owner of one native engine handle.
///
/// Once released, the wrapper holds the null handle and no operation may be
/// started on it; releasing it again does nothing. Load and save take the
/// wrapper mutably, so they cannot overlap any other operation on it.
#[derive(Debug)]
pub struct FastText {
    handle: fasttext_t,
}

/// The arguments of a native call on one engine with one text argument.
#[derive(Debug)]
pub struct TextCall {
    pub handle: usize,
    /// The text, nul-terminated.
    pub text: Vec<u8>,
}

/// The arguments of a native top-k query on one engine.
#[derive(Debug)]
pub struct QueryCall {
    pub handle: usize,
    /// The query text, nul-terminated.
    pub text: Vec<u8>,
    pub k: i32,
}

/// The arguments of a native analogy query: "a is to b as c is to ?".
#[derive(Debug)]
pub struct AnalogyCall {
    pub handle: usize,
    pub k: i32,
    pub word_a: Vec<u8>,
    pub word_b: Vec<u8>,
    pub word_c: Vec<u8>,
}

/// The argument of a native dimension query.
#[derive(Debug)]
pub struct DimensionCall {
    pub handle: usize,
}

/// The arguments of a native load from an in-memory model.
#[derive(Debug)]
pub struct BytesCall {
    pub handle: usize,
    pub len: usize,
}

/// What construction makes of the native reply: the handle's address, or
/// an allocation failure where the native side reported an error or gave the
/// null handle.
pub open spec fn created(r: NativeResult<usize>) -> Result<usize, FastTextError> {
    match r.error {
        Some(m) => Err(FastTextError::Allocation(Some(m))),
        None => if r.result == 0 {
            Err(FastTextError::Allocation(None))
        } else {
            Ok(r.result)
        },
    }
}

/// Releasing a wrapper that holds address `h`: the address it then holds, and
/// the address to hand to the native delete, if any.
pub open spec fn released(h: usize) -> (usize, Option<usize>) {
    if h == 0 {
        (0, None)
    } else {
        (0, Some(h))
    }
}

/// `out` is the text call on engine `h` for argument `arg`, a text of bytes `b`.
pub open spec fn text_call(
    h: usize,
    arg: TextArgument,
    b: Seq<u8>,
    out: Result<TextCall, FastTextError>,
) -> bool {
    match out {
        Ok(c) => c.handle == h && encodes(arg, b, Ok(c.text)),
        Err(e) => encodes(arg, b, Err(e)),
    }
}

/// `out` is the top-k query on engine `h` for argument `arg`, a text of bytes
/// `b`.
pub open spec fn query_call(
    h: usize,
    arg: TextArgument,
    b: Seq<u8>,
    k: i32,
    out: Result<QueryCall, FastTextError>,
) -> bool {
    match out {
        Ok(c) => c.handle == h && c.k == k && encodes(arg, b, Ok(c.text)),
        Err(e) => encodes(arg, b, Err(e)),
    }
}

/// A step in the life of a wrapper: an operation that calls the native engine
/// with the handle, or a release.
pub enum SessionOp {
    Call,
    Release,
}

/// What the native side sees of a wrapper: a call made with a handle, or the
/// deletion of a handle.
pub enum SessionEffect {
    Native(usize),
    Delete(usize),
}

/// The native effects of the steps `ops` on a wrapper holding address `h`, or
/// `None` where the contracts refuse a step (a call on a released wrapper).
pub open spec fn session(h: usize, ops: Seq<SessionOp>) -> Option<Seq<SessionEffect>>
    decreases ops.len(),
{
    if ops.len() == 0 {
        Some(Seq::empty())
    } else {
        let rest = ops.drop_first();
        match ops[0] {
            SessionOp::Call => if h == 0 {
                None
            } else {
                match session(h, rest) {
                    Some(t) => Some(seq![SessionEffect::Native(h)] + t),
                    None => None,
                }
            },
            SessionOp::Release => {
                let (h2, deleted) = released(h);
                match session(h2, rest) {
                    Some(t) => match deleted {
                        Some(a) => Some(seq![SessionEffect::Delete(a)] + t),
                        None => Some(t),
                    },
                    None => None,
                }
            },
        }
    }
}

proof fn lemma_released_session(ops: Seq<SessionOp>)
    requires
        session(0, ops) is Some,
    ensures
        session(0, ops) == Some(Seq::<SessionEffect>::empty()),
    decreases ops.len(),
{
    if ops.len() > 0 {
        lemma_released_session(ops.drop_first());
    }
}

proof fn lemma_session_shape(h: usize, ops: Seq<SessionOp>)
    requires
        h != 0,
        session(h, ops) is Some,
    ensures
        ({
            let t = session(h, ops)->Some_0;
            &&& forall|i: int| 0 <= i < t.len() - 1 ==> t[i] == SessionEffect::Native(h)
            &&& t.len() > 0 ==> (t.last() == SessionEffect::Native(h) || t.last()
                == SessionEffect::Delete(h))
        }),
    decreases ops.len(),
{
    if ops.len() > 0 {
        let rest = ops.drop_first();
        match ops[0] {
            SessionOp::Call => {
                lemma_session_shape(h, rest);
                let t2 = session(h, rest)->Some_0;
                let t = session(h, ops)->Some_0;
                assert(t == seq![SessionEffect::Native(h)] + t2);
                assert forall|i: int| 0 <= i < t.len() - 1 implies t[i] == SessionEffect::Native(h) by {
                    if i > 0 {
                        assert(t[i] == t2[i - 1]);
                    }
                }
            },
            SessionOp::Release => {
                lemma_released_session(rest);
                assert(session(h, ops)->Some_0 =~= seq![SessionEffect::Delete(h)]);
            },
        }
    }
}

/// Over every sequence of steps that the contracts admit on a live wrapper,
/// the handle is deleted at most once, no call is made with it after its
/// deletion, and every call and deletion concerns that one handle.
pub proof fn lemma_release_at_most_once(h: usize, ops: Seq<SessionOp>)
    requires
        h != 0,
        session(h, ops) is Some,
    ensures
        ({
            let t = session(h, ops)->Some_0;
            &&& forall|i: int, j: int|
                0 <= i < t.len() && 0 <= j < t.len() && #[trigger] t[i] is Delete
                    && #[trigger] t[j] is Delete ==> i == j
            &&& forall|i: int, j: int|
                0 <= i < j < t.len() && #[trigger] t[i] is Delete ==> !(#[trigger] t[j] is Native)
            &&& forall|i: int|
                0 <= i < t.len() ==> #[trigger] t[i] == SessionEffect::Native(h) || t[i]
                    == SessionEffect::Delete(h)
        }),
{
    lemma_session_shape(h, ops);
}

/// Releasing a wrapper twice deletes its handle once: the second release
/// finds the null handle, hands nothing to delete and changes nothing.
pub proof fn lemma_release_idempotent(h: usize)
    ensures
        released(released(h).0).1 is None,
        released(released(h).0).0 == released(h).0,
        released(h).0 == 0,
{
}

impl View for FastText {
    type V = usize;

    /// The address of the engine handle held, zero once released.
    closed spec fn view(&self) -> usize {
        self.handle.addr
    }
}

impl FastText {
    /// Takes ownership of the engine that the native constructor returned.
    pub fn new(reply: NativeResult<usize>) -> (out: Result<FastText, FastTextError>)
        ensures
            match created(reply) {
                Ok(h) => out is Ok && out->Ok_0@ == h,
                Err(e) => out == Err::<FastText, FastTextError>(e),
            },
    {
        match handle_result(reply) {
            Err(FastTextError::Native(m)) => Err(FastTextError::Allocation(Some(m))),
            Err(e) => Err(e),
            Ok(addr) => {
                if addr == 0 {
                    Err(FastTextError::Allocation(None))
                } else {
                    Ok(FastText { handle: fasttext_t { addr } })
                }
            },
        }
    }

    /// Whether the wrapper still holds a live engine.
    pub fn is_live(&self) -> (r: bool)
        ensures
            r == (self@ != 0),
    {
        !self.handle.is_null()
    }

    /// Gives up the engine: returns the address to delete the first time, and
    /// `None` on a wrapper already released, which it leaves as it is.
    pub fn release(&mut self) -> (r: Option<usize>)
        ensures
            (final(self)@, r) == released(old(self)@),
    {
        if self.handle.is_null() {
            None
        } else {
            let addr = self.handle.addr();
            self.handle = fasttext_t { addr: 0 };
            Some(addr)
        }
    }

    /// Prepares the query for the model's dimension.
    pub fn get_dimension(&self) -> (r: DimensionCall)
        requires
            self@ != 0,
        ensures
            r.handle == self@,
    {
        DimensionCall { handle: self.handle.addr() }
    }

    fn text_call(&self, text: &str, arg: TextArgument) -> (out: Result<TextCall, FastTextError>)
        requires
            self@ != 0,
        ensures
            text_call(self@, arg, text.spec_bytes(), out),
    {
        match encode_text(text, arg) {
            Ok(t) => Ok(TextCall { handle: self.handle.addr(), text: t }),
            Err(e) => Err(e),
        }
    }

    fn query_call(&self, text: &str, arg: TextArgument, k: i32) -> (out: Result<
        QueryCall,
        FastTextError,
    >)
        requires
            self@ != 0,
        ensures
            query_call(self@, arg, text.spec_bytes(), k, out),
    {
        match encode_text(text, arg) {
            Ok(t) => Ok(QueryCall { handle: self.handle.addr(), text: t, k }),
            Err(e) => Err(e),
        }
    }

    /// Prepares loading a model from the file at `path`.
    pub fn load_model(&mut self, path: &str) -> (out: Result<TextCall, FastTextError>)
        requires
            old(self)@ != 0,
        ensures
            final(self)@ == old(self)@,
            text_call(old(self)@, TextArgument::Path, path.spec_bytes(), out),
    {
        self.text_call(path, TextArgument::Path)
    }

    /// Prepares loading a model from the bytes of `buffer`.
    pub fn load_model_from_buffer(&mut self, buffer: &[u8]) -> (out: BytesCall)
        requires
            old(self)@ != 0,
        ensures
            final(self)@ == old(self)@,
            out.handle == old(self)@,
            out.len == buffer@.len(),
    {
        BytesCall { handle: self.handle.addr(), len: buffer.len() }
    }

    /// Prepares saving the model to the file at `path`.
    pub fn save_model(&mut self, path: &str) -> (out: Result<TextCall, FastTextError>)
        requires
            old(self)@ != 0,
        ensures
            final(self)@ == old(self)@,
            text_call(old(self)@, TextArgument::Path, path.spec_bytes(), out),
    {
        self.text_call(path, TextArgument::Path)
    }

    /// Prepares classifying `text` into its `k` most likely labels.
    pub fn predict(&self, text: &str, k: i32) -> (out: Result<QueryCall, FastTextError>)
        requires
            self@ != 0,
        ensures
            query_call(self@, TextArgument::Text, text.spec_bytes(), k, out),
    {
        self.query_call(text, TextArgument::Text, k)
    }

    /// Prepares the lookup of the `k` nearest neighbours of `word`.
    pub fn get_nn(&self, word: &str, k: i32) -> (out: Result<QueryCall, FastTextError>)
        requires
            self@ != 0,
        ensures
            query_call(self@, TextArgument::Word, word.spec_bytes(), k, out),
    {
        self.query_call(word, TextArgument::Word, k)
    }

    /// Prepares the query "`word_a` is to `word_b` as `word_c` is to ?" for
    /// its `k` best answers. The first argument that cannot be encoded, in
    /// the order a, b, c, gives the error.
    pub fn get_analogies(&self, k: i32, word_a: &str, word_b: &str, word_c: &str) -> (out: Result<
        AnalogyCall,
        FastTextError,
    >)
        requires
            self@ != 0,
        ensures
            match out {
                Ok(c) => {
                    &&& c.handle == self@
                    &&& c.k == k
                    &&& encodes(TextArgument::WordA, word_a.spec_bytes(), Ok(c.word_a))
                    &&& encodes(TextArgument::WordB, word_b.spec_bytes(), Ok(c.word_b))
                    &&& encodes(TextArgument::WordC, word_c.spec_bytes(), Ok(c.word_c))
                },
                Err(e) => {
                    ||| encodes(TextArgument::WordA, word_a.spec_bytes(), Err(e))
                    ||| nul_free(word_a.spec_bytes()) && encodes(TextArgument::WordB, word_b.spec_bytes(), Err(e))
                    ||| nul_free(word_a.spec_bytes()) && nul_free(word_b.spec_bytes())
                        && encodes(TextArgument::WordC, word_c.spec_bytes(), Err(e))
                },
            },
    {
        let a = match encode_text(word_a, TextArgument::WordA) {
            Ok(v) => v,
            Err(e) => return Err(e),
        };
        let b = match encode_text(word_b, TextArgument::WordB) {
            Ok(v) => v,
            Err(e) => return Err(e),
        };
        let c = match encode_text(word_c, TextArgument::WordC) {
            Ok(v) => v,
            Err(e) => return Err(e),
        };
        Ok(AnalogyCall { handle: self.handle.addr(), k, word_a: a, word_b: b, word_c: c })
    }

    /// Prepares the lookup of the identifier of `word`.
    pub fn get_word_id(&self, word: &str) -> (out: Result<TextCall, FastTextError>)
        requires
            self@ != 0,
        ensures
            text_call(self@, TextArgument::Word, word.spec_bytes(), out),
    {
        self.text_call(word, TextArgument::Word)
    }

    /// Prepares the lookup of the subword identifier of `word`.
    pub fn get_subword_id(&self, word: &str) -> (out: Result<TextCall, FastTextError>)
        requires
            self@ != 0,
        ensures
            text_call(self@, TextArgument::Word, word.spec_bytes(), out),
    {
        self.text_call(word, TextArgument::Word)
    }

    /// Prepares the query for the vector of `word`.
    pub fn get_word_vector(&self, word: &str) -> (out: Result<TextCall, FastTextError>)
        requires
            self@ != 0,
        ensures
            text_call(self@, TextArgument::Word, word.spec_bytes(), out),
    {
        self.text_call(word, TextArgument::Word)
    }

    /// Prepares the query for the vector of the sentence `text`.
    pub fn get_sentence_vector(&self, text: &str) -> (out: Result<TextCall, FastTextError>)
        requires
            self@ != 0,
        ensures
            text_call(self@, TextArgument::Text, text.spec_bytes(), out),
    {
        self.text_call(text, TextArgument::Text)
    }
}

} // verus!

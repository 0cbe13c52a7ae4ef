use crate::error::EngineError;
use tokenizers::{DecoderWrapper, Tokenizer};
use vstd::prelude::*;

verus! {

/// The tokenizer of the `tokenizers` crate, carried through as an opaque
/// value: nothing is known here of its vocabulary or its rules.
#[verifier::external_type_specification]
#[verifier::external_body]
pub struct ExTokenizer(tokenizers::Tokenizer);

/// A decoder of the `tokenizers` crate, opaque as well.
#[verifier::external_type_specification]
#[verifier::external_body]
pub struct ExDecoderWrapper(tokenizers::DecoderWrapper);

/// Which decoder a `DecoderWrapper` holds, with the two counts of a `Strip`.
#[derive(Clone, Copy, Debug, PartialEq, Eq, Structural)]
pub enum DecoderKind {
    Bpe,
    ByteLevel,
    WordPiece,
    Metaspace,
    Ctc,
    Sequence,
    Replace,
    Fuse,
    Strip { start: usize, stop: usize },
    ByteFallback,
}

/// The decoder a tokenizer is set to.
pub uninterp spec fn decoder_of(tokenizer: Tokenizer) -> Option<DecoderWrapper>;

/// Which decoder `decoder` holds.
pub uninterp spec fn kind_of(decoder: DecoderWrapper) -> DecoderKind;

/// The decoders that a sequence decoder runs in turn; empty for any other.
pub uninterp spec fn parts_of(decoder: DecoderWrapper) -> Seq<DecoderWrapper>;

/// What a tokenizer holds for decoding: for each sequence of ids, with
/// special tokens left out (`true`) or kept (`false`), the text that
/// `Tokenizer::decode` gives, or `None` where it gives an error. The text is
/// found by looking the ids up in the tokenizer's vocabulary and running its
/// decoder over the tokens, so it rests on the tokenizer and these two
/// arguments alone.
pub uninterp spec fn decoding(tokenizer: Tokenizer) -> Map<(Seq<u32>, bool), Option<Seq<char>>>;

/// A decoder of this kind returns on every list of tokens. A `Strip` that
/// cuts at the end indexes from the end of each token and aborts on a token
/// shorter than its count. A `Replace` keeps its pattern to itself, and
/// where that is a regular expression the matcher aborts on a search error.
/// The other kinds not named here were not found to return on every token.
/// None of these is admitted.
pub open spec fn kind_returns(kind: DecoderKind) -> bool {
    match kind {
        DecoderKind::ByteLevel => true,
        DecoderKind::Metaspace => true,
        DecoderKind::Fuse => true,
        DecoderKind::ByteFallback => true,
        DecoderKind::Strip { start, stop } => stop == 0,
        _ => false,
    }
}

/// `decoder` returns on every list of tokens: it is of such a kind, or a
/// sequence of decoders of such kinds.
pub open spec fn decoder_returns(decoder: DecoderWrapper) -> bool {
    if kind_of(decoder) == DecoderKind::Sequence {
        forall|i: int|
            0 <= i < parts_of(decoder).len() ==> kind_returns(
                kind_of(#[trigger] parts_of(decoder)[i]),
            )
    } else {
        kind_returns(kind_of(decoder))
    }
}

/// The tokenizers the adapter takes: the decoder, if there is one, returns
/// on every list of tokens. Without a decoder the tokens are joined as they
/// are.
pub open spec fn admitted(tokenizer: Tokenizer) -> bool {
    match decoder_of(tokenizer) {
        Some(decoder) => decoder_returns(decoder),
        None => true,
    }
}

/// Reads the decoder with `Tokenizer::get_decoder`.
#[verifier::external_body]
fn tokenizer_decoder(tokenizer: &Tokenizer) -> (decoder: Option<&DecoderWrapper>)
    ensures
        match decoder {
            Some(d) => decoder_of(*tokenizer) == Some(*d),
            None => decoder_of(*tokenizer) is None,
        },
{
    tokenizer.get_decoder()
}

/// Tells the variants of `DecoderWrapper` apart, and reads the public fields
/// `start` and `stop` of a `Strip`.
#[verifier::external_body]
fn decoder_kind(decoder: &DecoderWrapper) -> (kind: DecoderKind)
    ensures
        kind == kind_of(*decoder),
{
    match decoder {
        DecoderWrapper::BPE(_) => DecoderKind::Bpe,
        DecoderWrapper::ByteLevel(_) => DecoderKind::ByteLevel,
        DecoderWrapper::WordPiece(_) => DecoderKind::WordPiece,
        DecoderWrapper::Metaspace(_) => DecoderKind::Metaspace,
        DecoderWrapper::CTC(_) => DecoderKind::Ctc,
        DecoderWrapper::Sequence(_) => DecoderKind::Sequence,
        DecoderWrapper::Replace(_) => DecoderKind::Replace,
        DecoderWrapper::Fuse(_) => DecoderKind::Fuse,
        DecoderWrapper::Strip(strip) => DecoderKind::Strip { start: strip.start, stop: strip.stop },
        DecoderWrapper::ByteFallback(_) => DecoderKind::ByteFallback,
    }
}

/// The length of what `Sequence::get_decoders` gives for a sequence decoder;
/// zero for any other decoder.
#[verifier::external_body]
fn decoder_part_count(decoder: &DecoderWrapper) -> (count: usize)
    ensures
        count == parts_of(*decoder).len(),
{
    match decoder {
        DecoderWrapper::Sequence(sequence) => sequence.get_decoders().len(),
        _ => 0,
    }
}

/// The decoder at `index` of what `Sequence::get_decoders` gives.
#[verifier::external_body]
fn decoder_part(decoder: &DecoderWrapper, index: usize) -> (part: &DecoderWrapper)
    requires
        index < parts_of(*decoder).len(),
    ensures
        *part == parts_of(*decoder)[index as int],
{
    match decoder {
        DecoderWrapper::Sequence(sequence) => &sequence.get_decoders()[index],
        _ => decoder,
    }
}

/// A decoded text as a mathematical value.
pub open spec fn text_of(text: Option<String>) -> Option<Seq<char>> {
    match text {
        Some(t) => Some(t@),
        None => None,
    }
}

/// Calls `Tokenizer::decode` on `ids`. `None` stands for the crate's error.
/// The claim is that the answer is the one the tokenizer holds for these ids
/// and this flag: the same tokenizer decodes the same ids alike each time.
/// What the text is stays open. Tokenizers whose decoder may abort on a
/// token are left out.
#[verifier::external_body]
fn tokenizer_decode(tokenizer: &Tokenizer, ids: &Vec<u32>, skip_special_tokens: bool) -> (text:
    Option<String>)
    requires
        admitted(*tokenizer),
    ensures
        decoding(*tokenizer).contains_pair((ids@, skip_special_tokens), text_of(text)),
{
    tokenizer.decode(ids.as_slice(), skip_special_tokens).ok()
}

/// Whether a decoder of this kind returns on every list of tokens.
pub fn kind_is_admitted(kind: DecoderKind) -> (admits: bool)
    ensures
        admits == kind_returns(kind),
{
    match kind {
        DecoderKind::ByteLevel => true,
        DecoderKind::Metaspace => true,
        DecoderKind::Fuse => true,
        DecoderKind::ByteFallback => true,
        DecoderKind::Strip { start: _, stop } => stop == 0,
        _ => false,
    }
}

/// Whether `decoder` returns on every list of tokens: by its kind, or, for a
/// sequence, by the kind of each decoder in it.
pub fn decoder_is_admitted(decoder: &DecoderWrapper) -> (admits: bool)
    ensures
        admits == decoder_returns(*decoder),
{
    match decoder_kind(decoder) {
        DecoderKind::Sequence => {
            let count = decoder_part_count(decoder);
            let mut i: usize = 0;
            while i < count
                invariant
                    i <= count,
                    count == parts_of(*decoder).len(),
                    kind_of(*decoder) == DecoderKind::Sequence,
                    forall|j: int|
                        0 <= j < i ==> kind_returns(kind_of(#[trigger] parts_of(*decoder)[j])),
                decreases count - i,
            {
                let part = decoder_part(decoder, i);
                if !kind_is_admitted(decoder_kind(part)) {
                    assert(!kind_returns(kind_of(parts_of(*decoder)[i as int])));
                    return false;
                }
                i += 1;
            }
            true
        },
        kind => kind_is_admitted(kind),
    }
}

/// A loaded tokenizer, for the way back from token ids to text. Read-only
/// once made.
pub struct TokenizerAdapter {
    inner: Tokenizer,
}

impl View for TokenizerAdapter {
    type V = Map<(Seq<u32>, bool), Option<Seq<char>>>;

    /// The adapter as a mathematical value: what its tokenizer decodes to.
    closed spec fn view(&self) -> Map<(Seq<u32>, bool), Option<Seq<char>>> {
        decoding(self.inner)
    }
}

impl TokenizerAdapter {
    /// Every adapter holds a tokenizer on which decoding returns.
    #[verifier::type_invariant]
    closed spec fn holds_admitted(self) -> bool {
        admitted(self.inner)
    }

    /// Takes over a tokenizer that the caller has built or loaded, if it is
    /// one the adapter admits; the adapter then decodes as that tokenizer
    /// does. Any other is refused with `EngineError::ResourceLoad`.
    pub fn from_tokenizer(tokenizer: Tokenizer) -> (result: Result<TokenizerAdapter, EngineError>)
        ensures
            result is Ok <==> admitted(tokenizer),
            result matches Ok(adapter) ==> adapter@ == decoding(tokenizer),
            result matches Err(e) ==> e == EngineError::ResourceLoad,
    {
        let decodes = match tokenizer_decoder(&tokenizer) {
            Some(decoder) => decoder_is_admitted(decoder),
            None => true,
        };
        if decodes {
            Ok(TokenizerAdapter { inner: tokenizer })
        } else {
            Err(EngineError::ResourceLoad)
        }
    }

    /// Decodes `ids`, leaving special tokens out where `skip_special_tokens`
    /// is set. `None` where the tokenizer fails. The answer is the one the
    /// tokenizer holds for exactly these ids and this flag.
    pub fn decode(&self, ids: &Vec<u32>, skip_special_tokens: bool) -> (text: Option<String>)
        ensures
            self@.contains_pair((ids@, skip_special_tokens), text_of(text)),
    {
        proof {
            use_type_invariant(self);
        }
        tokenizer_decode(&self.inner, ids, skip_special_tokens)
    }

    /// Decodes the single id `id`, leaving special tokens out: the text of
    /// one freshly chosen token, as a streaming caller needs it. The answer
    /// is what `decode` gives for the one-element sequence of `id`.
    pub fn decode_token(&self, id: u32) -> (text: Option<String>)
        ensures
            self@.contains_pair((seq![id], true), text_of(text)),
    {
        proof {
            use_type_invariant(self);
        }
        let mut ids: Vec<u32> = Vec::new();
        ids.push(id);
        assert(ids@ =~= seq![id]);
        tokenizer_decode(&self.inner, &ids, true)
    }
}

} // verus!

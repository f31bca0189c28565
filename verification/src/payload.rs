//! The fixed-shape records that cross a session, and their byte images.

use vstd::prelude::*;

verus! {

/// Number of 32-bit lanes in a request.
pub const INPUT_LANES: usize = 2;

/// Number of 32-bit lanes in a result.
pub const OUTPUT_LANES: usize = 1;

/// Number of bytes one lane occupies in a byte image.
pub const LANE_BYTES: usize = 4;

/// A request: two unsigned 32-bit lanes.
#[derive(Clone, Copy, Debug, PartialEq, Eq, Structural)]
pub struct FixedInput {
    pub lane0: u32,
    pub lane1: u32,
}

/// A result: one unsigned 32-bit lane.
#[derive(Clone, Copy, Debug, PartialEq, Eq, Structural)]
pub struct FixedOutput {
    pub lane0: u32,
}

/// What the worker puts on the response channel: the backend's result, or a
/// tag saying that the backend failed on this request.
#[derive(Clone, Copy, Debug, PartialEq, Eq, Structural)]
pub enum Response {
    Completed(FixedOutput),
    Failed,
}

impl View for FixedInput {
    type V = Seq<u32>;

    open spec fn view(&self) -> Seq<u32> {
        seq![self.lane0, self.lane1]
    }
}

impl View for FixedOutput {
    type V = Seq<u32>;

    open spec fn view(&self) -> Seq<u32> {
        seq![self.lane0]
    }
}

/// The word that four bytes starting at `at` spell, least significant first.
pub open spec fn le_word(bytes: Seq<u8>, at: int) -> int {
    bytes[at] + 0x100 * bytes[at + 1] + 0x1_0000 * bytes[at + 2] + 0x100_0000 * bytes[at + 3]
}

/// The word that four bytes starting at `at` spell, most significant first.
pub open spec fn be_word(bytes: Seq<u8>, at: int) -> int {
    bytes[at + 3] + 0x100 * bytes[at + 2] + 0x1_0000 * bytes[at + 1] + 0x100_0000 * bytes[at]
}

/// `bytes` lays `words` out one after another, each least significant byte first.
pub open spec fn is_le_image(words: Seq<u32>, bytes: Seq<u8>) -> bool {
    &&& bytes.len() == 4 * words.len()
    &&& forall|i: int| 0 <= i < words.len() ==> #[trigger] words[i] == le_word(bytes, 4 * i)
}

/// `bytes` lays `words` out one after another, each most significant byte first.
pub open spec fn is_be_image(words: Seq<u32>, bytes: Seq<u8>) -> bool {
    &&& bytes.len() == 4 * words.len()
    &&& forall|i: int| 0 <= i < words.len() ==> #[trigger] words[i] == be_word(bytes, 4 * i)
}

/// `bytes` is the in-memory image of `words` on some machine: the byte order
/// is the machine's own, so it is one of the two.
pub open spec fn is_native_image(words: Seq<u32>, bytes: Seq<u8>) -> bool {
    is_le_image(words, bytes) || is_be_image(words, bytes)
}

/// `word` is what the four bytes at `at` spell in one of the two byte orders.
pub open spec fn is_native_word(word: u32, bytes: Seq<u8>, at: int) -> bool {
    word == le_word(bytes, at) || word == be_word(bytes, at)
}

#[verifier::external_type_specification]
#[verifier::external_body]
pub struct ExPodCastError(bytemuck::PodCastError);

/// `bytemuck::cast_slice` from `u32` to `u8`, copied into a vector.
///
/// The cast reinterprets the words' memory as bytes, so the result holds
/// four bytes per word in the machine's byte order. Going from an alignment
/// of four to one and from a size of four to one, the cast has no failing
/// case.
#[verifier::external_body]
fn words_to_bytes(words: &[u32]) -> (bytes: Vec<u8>)
    ensures
        is_native_image(words@, bytes@),
{
    bytemuck::cast_slice::<u32, u8>(words).to_vec()
}

/// `bytemuck::try_cast_slice` from `u8` to `u32`, copied into a vector.
///
/// The cast succeeds only on a whole number of words, and then reinterprets
/// the bytes as words in the machine's byte order. It may also refuse bytes
/// that do not start on a word boundary in memory, so success is not promised
/// for any input.
#[verifier::external_body]
fn bytes_to_words(bytes: &[u8]) -> (cast: Result<Vec<u32>, bytemuck::PodCastError>)
    ensures
        cast matches Ok(words) ==> is_native_image(words@, bytes@),
        bytes@.len() % 4 != 0 ==> cast is Err,
{
    match bytemuck::try_cast_slice::<u8, u32>(bytes) {
        Ok(words) => Ok(words.to_vec()),
        Err(refusal) => Err(refusal),
    }
}

impl FixedInput {
    pub fn new(lane0: u32, lane1: u32) -> (input: Self)
        ensures
            input@ == seq![lane0, lane1],
            input == (FixedInput { lane0, lane1 }),
    {
        FixedInput { lane0, lane1 }
    }

    /// A request whose two lanes carry the same word.
    pub fn splat(word: u32) -> (input: Self)
        ensures
            input == (FixedInput { lane0: word, lane1: word }),
    {
        FixedInput { lane0: word, lane1: word }
    }

    /// The request read from exactly two words.
    pub fn from_words(words: &[u32]) -> (input: Option<Self>)
        ensures
            words@.len() == INPUT_LANES <==> input is Some,
            input matches Some(record) ==> record@ == words@ && record == (FixedInput {
                lane0: words@[0],
                lane1: words@[1],
            }),
    {
        if words.len() == INPUT_LANES {
            let record = FixedInput { lane0: words[0], lane1: words[1] };
            assert(record@ =~= words@);
            Some(record)
        } else {
            None
        }
    }

    /// The lanes in order.
    pub fn to_words(&self) -> (words: Vec<u32>)
        ensures
            words@ == self@,
    {
        let mut words: Vec<u32> = Vec::new();
        words.push(self.lane0);
        words.push(self.lane1);
        assert(words@ =~= self@);
        words
    }
}

impl FixedOutput {
    pub fn new(lane0: u32) -> (output: Self)
        ensures
            output == (FixedOutput { lane0 }),
    {
        FixedOutput { lane0 }
    }

    /// The lanes in order.
    pub fn to_words(&self) -> (words: Vec<u32>)
        ensures
            words@ == self@,
    {
        let mut words: Vec<u32> = Vec::new();
        words.push(self.lane0);
        assert(words@ =~= self@);
        words
    }
}

/// The byte image of a request, as a backend's input buffer takes it.
pub fn encode_input(input: &FixedInput) -> (bytes: Vec<u8>)
    ensures
        bytes@.len() == INPUT_LANES * LANE_BYTES,
        is_native_image(input@, bytes@),
{
    let words = input.to_words();
    words_to_bytes(words.as_slice())
}

/// The byte image of a result.
pub fn encode_output(output: &FixedOutput) -> (bytes: Vec<u8>)
    ensures
        bytes@.len() == OUTPUT_LANES * LANE_BYTES,
        is_native_image(output@, bytes@),
{
    let words = output.to_words();
    words_to_bytes(words.as_slice())
}

/// What `input_from_cast` returns, as a function of the words read.
pub open spec fn input_of_cast(cast: Result<Vec<u32>, bytemuck::PodCastError>) -> Option<
    FixedInput,
> {
    match cast {
        Ok(words) => if words@.len() == INPUT_LANES {
            Some(FixedInput { lane0: words@[0], lane1: words@[1] })
        } else {
            None
        },
        Err(_) => None,
    }
}

/// Turns the words read from a request's byte image into the request:
/// exactly two words are its two lanes, anything else is no request.
pub fn input_from_cast(cast: Result<Vec<u32>, bytemuck::PodCastError>) -> (input: Option<
    FixedInput,
>)
    ensures
        input == input_of_cast(cast),
{
    match cast {
        Ok(words) => FixedInput::from_words(words.as_slice()),
        Err(_) => None,
    }
}

/// Reads a request back from its byte image. A request that comes out
/// carries the two words of the image in the machine's byte order; an image
/// of any other length than eight bytes gives none.
pub fn decode_input(bytes: &[u8]) -> (input: Option<FixedInput>)
    ensures
        input matches Some(record) ==> is_native_image(record@, bytes@),
        bytes@.len() != INPUT_LANES * LANE_BYTES ==> input is None,
{
    let cast = bytes_to_words(bytes);
    input_from_cast(cast)
}

/// What `response_from_cast` returns, as a function of the words read.
pub open spec fn response_of_cast(cast: Result<Vec<u32>, bytemuck::PodCastError>) -> Response {
    match cast {
        Ok(words) => if words@.len() >= 1 {
            Response::Completed(FixedOutput { lane0: words@[0] })
        } else {
            Response::Failed
        },
        Err(_) => Response::Failed,
    }
}

/// Turns the words read from a backend's output buffer into a response: the
/// first word is the result; a buffer that could not be read as words, or
/// that holds none, tags the response as failed.
pub fn response_from_cast(cast: Result<Vec<u32>, bytemuck::PodCastError>) -> (response: Response)
    ensures
        response == response_of_cast(cast),
{
    match cast {
        Ok(words) => {
            if words.len() >= 1 {
                Response::Completed(FixedOutput { lane0: words[0] })
            } else {
                Response::Failed
            }
        },
        Err(_) => Response::Failed,
    }
}

/// Reads a backend's output buffer. A completed response carries the first
/// word of the buffer in the machine's byte order; a buffer that is empty or
/// not a whole number of words always gives a failed response.
pub fn decode_output(bytes: &[u8]) -> (response: Response)
    ensures
        response matches Response::Completed(output) ==> {
            &&& bytes@.len() >= LANE_BYTES
            &&& bytes@.len() % 4 == 0
            &&& is_native_word(output.lane0, bytes@, 0)
        },
        bytes@.len() == 0 || bytes@.len() % 4 != 0 ==> response == Response::Failed,
{
    let cast = bytes_to_words(bytes);
    response_from_cast(cast)
}

} // verus!

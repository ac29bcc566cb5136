//! The streaming sample's provider: it cycles through the files of an image
//! directory and streams each one uuencoded.

use vstd::prelude::*;

verus! {

/// The uuencoded lines of `content` (each line a length character and the
/// encoded bytes, then a newline), as the `uuencode` crate writes them.
pub uninterp spec fn uuencoded_lines(content: Seq<u8>) -> Seq<char>;

/// Encode a file with `uuencode::uuencode`. Its source frames the encoded
/// lines with a "begin 644 <filename>" line and a closing "`" line and "end";
/// the lines themselves depend on the content alone and are not spelled out.
#[verifier::external_body]
fn uuencode_file(filename: &str, content: &[u8]) -> (r: String)
    ensures
        r@ == "begin 644 "@ + filename@ + "\n"@ + uuencoded_lines(content@) + "`\nend"@,
{
    uuencode::uuencode(filename, content)
}

/// The streamed form of an image file: the file uuencoded under its name.
///
/// # Arguments
/// * `filename` - The image's filename.
/// * `file_content` - The image file's bytes.
pub fn encode_image_file(filename: &str, file_content: &[u8]) -> (r: String)
    ensures
        r@ == "begin 644 "@ + filename@ + "\n"@ + uuencoded_lines(file_content@) + "`\nend"@,
{
    uuencode_file(filename, file_content)
}

/// Continuously iterates through a list of files.
/// After it reaches the end of the list, it cycles back to the start of the list.
#[derive(Debug)]
pub struct ImageFileIterator {
    /// The directory that contains the images.
    image_directory: String,
    /// The filenames of the images that we want to stream.
    image_filenames: Vec<String>,
    /// The index for the current image filename.
    current_image_file_index: usize,
}

/// The position after `steps` steps from `start` around a cycle of `len` positions.
pub open spec fn cycle_position(start: int, len: int, steps: nat) -> int
    decreases steps,
{
    if steps == 0 {
        start
    } else {
        (cycle_position(start, len, (steps - 1) as nat) + 1) % len
    }
}

/// `after` is the iterator after one call of `next_image_filename` on
/// `before` that gave `r`: the filename at the position, and the position
/// moved on by one, back to the first after the last; `None`, and nothing
/// moved, when there are no images.
pub open spec fn is_next_step(before: ImageFileIterator, after: ImageFileIterator, r: Option<String>) -> bool {
    &&& after.directory() == before.directory()
    &&& after.filenames() == before.filenames()
    &&& before.filenames().len() == 0 ==> r is None && after.position() == before.position()
    &&& before.filenames().len() > 0 ==> {
        &&& 0 <= before.position() < before.filenames().len()
        &&& r matches Some(f) && f@ == before.filenames()[before.position()]@
        &&& after.position() == (before.position() + 1) % (before.filenames().len() as int)
    }
}

impl ImageFileIterator {
    #[verifier::type_invariant]
    spec fn index_in_range(self) -> bool {
        self.image_filenames@.len() == 0 || self.current_image_file_index < self.image_filenames@.len()
    }

    /// The directory that contains the images.
    pub closed spec fn directory(self) -> Seq<char> {
        self.image_directory@
    }

    /// The filenames of the images, in streaming order.
    pub closed spec fn filenames(self) -> Seq<String> {
        self.image_filenames@
    }

    /// The position of the next image to stream.
    pub closed spec fn position(self) -> int {
        self.current_image_file_index as int
    }

    /// Create a new ImageFileIterator.
    ///
    /// # Arguments
    /// * `image_directory` - The directory that contains the images.
    /// * `image_filenames` - The filenames of the images that we want to stream.
    pub fn new(image_directory: &str, image_filenames: Vec<String>) -> (it: Self)
        ensures
            it.directory() == image_directory@,
            it.filenames() == image_filenames@,
            it.position() == 0,
    {
        ImageFileIterator {
            image_directory: String::from_str(image_directory),
            image_filenames,
            current_image_file_index: 0,
        }
    }

    /// The directory that contains the images.
    pub fn image_directory(&self) -> (d: &str)
        ensures
            d@ == self.directory(),
    {
        self.image_directory.as_str()
    }

    /// The filename of the next image to stream, moving on to the one after
    /// it (back to the first after the last). `None` when there are no images.
    pub fn next_image_filename(&mut self) -> (r: Option<String>)
        ensures
            is_next_step(*old(self), *final(self), r),
    {
        proof { use_type_invariant(&*self); }
        let len = self.image_filenames.len();
        if len == 0 {
            return None;
        }
        let current = self.image_filenames[self.current_image_file_index].clone();
        // Note: We will go back to the start of the list once we past the end.
        self.current_image_file_index = (self.current_image_file_index + 1) % len;
        Some(current)
    }
}

/// Streaming visits the images in order and starts over after the last:
/// from the first image, after `steps` images the next one is image
/// `steps % len`, so every image is streamed once in each round of `len`.
pub proof fn lemma_streaming_cycles(len: int, steps: nat)
    requires
        len > 0,
    ensures
        cycle_position(0, len, steps) == (steps as int) % len,
    decreases steps,
{
    if steps > 0 {
        lemma_streaming_cycles(len, (steps - 1) as nat);
        let k = (steps - 1) as int;
        vstd::arithmetic::div_mod::lemma_add_mod_noop(k, 1, len);
        vstd::arithmetic::div_mod::lemma_add_mod_noop_right(k % len, 1, len);
        assert(cycle_position(0, len, steps) == ((k % len) + 1) % len);
    } else {
        vstd::arithmetic::div_mod::lemma_small_mod(0, len as nat);
    }
}

/// Where a run of calls on a fresh iterator stands after `j` calls: the
/// position is `j % n` and the filenames are unchanged.
proof fn lemma_position_after_calls(states: Seq<ImageFileIterator>, results: Seq<Option<String>>, j: int)
    requires
        states.len() == results.len() + 1,
        states[0].position() == 0,
        states[0].filenames().len() > 0,
        forall|i: int| 0 <= i < results.len() ==> is_next_step(#[trigger] states[i], states[i + 1], results[i]),
        0 <= j < states.len(),
    ensures
        states[j].filenames() == states[0].filenames(),
        states[j].position() == j % (states[0].filenames().len() as int),
    decreases j,
{
    let n = states[0].filenames().len() as int;
    if j == 0 {
        vstd::arithmetic::div_mod::lemma_small_mod(0, n as nat);
    } else {
        lemma_position_after_calls(states, results, j - 1);
        assert(is_next_step(states[j - 1], states[j], results[j - 1]));
        vstd::arithmetic::div_mod::lemma_add_mod_noop_right(1, j - 1, n);
        assert((1 + (j - 1)) == j);
    }
}

/// The `j`-th call of `next_image_filename` on a fresh iterator over `n > 0`
/// filenames names filename `j % n`: the iterator goes through the names in
/// order and starts over after the last, without end.
pub proof fn lemma_fresh_iterator_names_in_turn(states: Seq<ImageFileIterator>, results: Seq<Option<String>>)
    requires
        states.len() == results.len() + 1,
        states[0].position() == 0,
        states[0].filenames().len() > 0,
        forall|i: int| 0 <= i < results.len() ==> is_next_step(#[trigger] states[i], states[i + 1], results[i]),
    ensures
        forall|j: int| 0 <= j < results.len() ==> (#[trigger] results[j] matches Some(f)
            && f@ == states[0].filenames()[j % (states[0].filenames().len() as int)]@),
{
    assert forall|j: int| 0 <= j < results.len() implies (#[trigger] results[j] matches Some(f)
        && f@ == states[0].filenames()[j % (states[0].filenames().len() as int)]@) by {
        lemma_position_after_calls(states, results, j);
        assert(is_next_step(states[j], states[j + 1], results[j]));
    }
}

} // verus!

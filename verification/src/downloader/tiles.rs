//! From the replies of the tile service to the mosaic: each reply is
//! checked and decoded, and either every tile is there or the fetch fails.

use vstd::prelude::*;
use crate::mosaic::assemble;
use crate::mosaic::can_assemble;
use crate::mosaic::is_mosaic_of;
use crate::mosaic::CoordinateOrder;
use crate::raster::Mosaic;
use crate::raster::TileImage;

verus! {

/// Why one tile could not be had.
#[derive(Clone, Copy, Debug, PartialEq, Eq, Structural)]
pub enum TileError {
    /// The request was not answered.
    Transport,
    /// The answer's status was not one of success.
    Status,
    /// The answer says that it holds something other than an image.
    NotAnImage,
    /// The answer's body could not be decoded as an image.
    Undecodable,
}

/// How the request for one tile ended.
pub enum TileReply {
    /// No answer came: the connection failed or timed out.
    Unanswered,
    /// An answer came.
    Answered { status: i32, content_type: Option<String>, body: Vec<u8> },
}

/// Why a mosaic could not be had.
#[derive(Clone, Copy, Debug, PartialEq, Eq, Structural)]
pub enum DownloadError {
    /// The tile of the given index could not be had.
    TileFetchFailed { index: usize, cause: TileError },
    /// The tiles do not make a grid.
    AssemblyError,
}

/// Whether `c` is a letter, written small as `lower` or as the capital `upper`.
pub open spec fn is_letter(c: char, lower: char, upper: char) -> bool {
    c == lower || c == upper
}

/// Whether a content type names an image: it begins with `image/`, in
/// small letters or capitals.
pub open spec fn is_image_type_spec(content_type: Seq<char>) -> bool {
    &&& content_type.len() >= 6
    &&& is_letter(content_type[0], 'i', 'I')
    &&& is_letter(content_type[1], 'm', 'M')
    &&& is_letter(content_type[2], 'a', 'A')
    &&& is_letter(content_type[3], 'g', 'G')
    &&& is_letter(content_type[4], 'e', 'E')
    &&& content_type[5] == '/'
}

/// Whether a content type names an image.
pub fn is_image_type(content_type: &str) -> (r: bool)
    ensures
        r == is_image_type_spec(content_type@),
{
    if content_type.unicode_len() < 6 {
        return false;
    }
    let c0 = content_type.get_char(0);
    let c1 = content_type.get_char(1);
    let c2 = content_type.get_char(2);
    let c3 = content_type.get_char(3);
    let c4 = content_type.get_char(4);
    let c5 = content_type.get_char(5);
    (c0 == 'i' || c0 == 'I') && (c1 == 'm' || c1 == 'M') && (c2 == 'a' || c2 == 'A') && (c3 == 'g'
        || c3 == 'G') && (c4 == 'e' || c4 == 'E') && c5 == '/'
}

/// Why a reply is refused before its body is looked at: it is no answer,
/// its status is outside 200 to 299, or it names a content type that is no
/// image. `None` where the body is to be decoded.
pub open spec fn refusal(reply: &TileReply) -> Option<TileError> {
    match reply {
        TileReply::Unanswered => Some(TileError::Transport),
        TileReply::Answered { status, content_type, body } => {
            if !(200 <= *status < 300) {
                Some(TileError::Status)
            } else if content_type matches Some(named) && !is_image_type_spec(named@) {
                Some(TileError::NotAnImage)
            } else {
                None
            }
        },
    }
}

/// What a decoder gives for an image file: width, height and the samples of
/// red, green, blue and alpha, pixel after pixel.
pub struct DecodedImage {
    pub width: u32,
    pub height: u32,
    pub samples: Vec<u8>,
}

/// What the image library decodes an image file to, by `image::guess_format`,
/// `image::load_from_memory_with_format` and `DynamicImage::to_rgba8`:
/// width, height and the samples of red, green, blue and alpha, or `None`
/// where the format is not known or the file cannot be decoded.
pub uninterp spec fn decoded_rgba(bytes: Seq<u8>) -> Option<(u32, u32, Seq<u8>)>;

/// Decodes an image file held in memory, by `image::guess_format`,
/// `image::load_from_memory_with_format` and `DynamicImage::to_rgba8`, into
/// width, height and the samples; `None` stands for any error. The one
/// claim: the result is the decoder's own, a function of the bytes alone.
/// The format is told from the first bytes by the library's fixed list, and
/// the decoder of a format that was told so reads nothing but the bytes.
#[verifier::external_body]
fn decode_rgba(bytes: &Vec<u8>) -> (r: Option<DecodedImage>)
    ensures
        match r {
            Some(d) => decoded_rgba(bytes@) == Some((d.width, d.height, d.samples@)),
            None => decoded_rgba(bytes@) is None,
        },
{
    let format = image::guess_format(bytes).ok()?;
    let image = image::load_from_memory_with_format(bytes, format).ok()?.to_rgba8();
    Some(DecodedImage { width: image.width(), height: image.height(), samples: image.into_raw() })
}

/// Whether `r` is what a decoder's result stands for: the tile of its
/// width, height and samples, or `Undecodable` where it gave none, or
/// samples that do not fill the width and height it gave.
pub open spec fn is_tile_of(
    r: Result<TileImage, TileError>,
    decoded: Option<(u32, u32, Seq<u8>)>,
) -> bool {
    match decoded {
        Some((width, height, samples)) => if samples.len() == width * height * 4 {
            &&& r matches Ok(tile)
            &&& tile.wf()
            &&& tile.spec_width() == width
            &&& tile.spec_height() == height
            &&& tile@ == samples
        } else {
            r == Err::<TileImage, TileError>(TileError::Undecodable)
        },
        None => r == Err::<TileImage, TileError>(TileError::Undecodable),
    }
}

/// Whether `r` is what the reply to the request for one tile stands for:
/// the refusal's error where the reply is refused, else what its body is
/// decoded to.
pub open spec fn is_reply_outcome(r: Result<TileImage, TileError>, reply: &TileReply) -> bool {
    match reply {
        TileReply::Unanswered => r == Err::<TileImage, TileError>(TileError::Transport),
        TileReply::Answered { status, content_type, body } => match refusal(reply) {
            Some(e) => r == Err::<TileImage, TileError>(e),
            None => is_tile_of(r, decoded_rgba(body@)),
        },
    }
}

/// The tile that a decoder's result stands for: `Undecodable` where it gave
/// none, or samples that do not fill the width and height it gave.
pub fn tile_of(decoded: Option<DecodedImage>) -> (r: Result<TileImage, TileError>)
    ensures
        r is Ok <==> (decoded matches Some(d) && d.samples@.len() == d.width * d.height * 4),
        r matches Ok(tile) ==> {
            &&& decoded matches Some(d)
            &&& tile.wf()
            &&& tile.spec_width() == d.width
            &&& tile.spec_height() == d.height
            &&& tile@ == d.samples@
        },
        r matches Err(e) ==> e == TileError::Undecodable,
        is_tile_of(
            r,
            match decoded {
                Some(d) => Some((d.width, d.height, d.samples@)),
                None => None,
            },
        ),
{
    match decoded {
        Some(d) => match TileImage::from_raw(d.width, d.height, d.samples) {
            Some(tile) => Ok(tile),
            None => Err(TileError::Undecodable),
        },
        None => Err(TileError::Undecodable),
    }
}

/// Turns the reply to the request for one tile into the tile. A reply that
/// is refused gives the refusal's error; any other gives the tile that its
/// body is decoded to, or `Undecodable`.
pub fn download_image(reply: &TileReply) -> (r: Result<TileImage, TileError>)
    ensures
        is_reply_outcome(r, reply),
        r matches Ok(tile) ==> tile.wf(),
{
    match reply {
        TileReply::Unanswered => Err(TileError::Transport),
        TileReply::Answered { status, content_type, body } => {
            if *status < 200 || *status >= 300 {
                return Err(TileError::Status);
            }
            match content_type {
                Some(named) => {
                    if !is_image_type(named.as_str()) {
                        return Err(TileError::NotAnImage);
                    }
                },
                None => {},
            }
            tile_of(decode_rgba(body))
        },
    }
}

/// Whether `index` is the first of the results that is a failure.
pub open spec fn is_first_failure(results: Seq<Result<TileImage, TileError>>, index: int) -> bool {
    &&& 0 <= index < results.len()
    &&& results[index] is Err
    &&& forall|j: int| 0 <= j < index ==> results[j] is Ok
}

/// Whether every result is a tile.
pub open spec fn all_fetched(results: Seq<Result<TileImage, TileError>>) -> bool {
    forall|j: int| 0 <= j < results.len() ==> results[j] is Ok
}

/// The tiles of results that are all tiles.
pub open spec fn tiles_of(results: Seq<Result<TileImage, TileError>>) -> Seq<TileImage> {
    Seq::new(results.len(), |k: int| results[k]->Ok_0)
}

/// Where exactly one result is a failure, it is the first failure, whatever
/// its index.
pub proof fn lemma_single_failure_is_first(results: Seq<Result<TileImage, TileError>>, index: int)
    requires
        0 <= index < results.len(),
        results[index] is Err,
        forall|j: int| 0 <= j < results.len() && j != index ==> results[j] is Ok,
    ensures
        is_first_failure(results, index),
        forall|other: int| is_first_failure(results, other) ==> other == index,
        !all_fetched(results),
{
}

/// All tiles or nothing: the tiles in the order of the results where each
/// result is a tile; else the first failure, with its index and its cause.
pub fn collect_tiles(results: Vec<Result<TileImage, TileError>>) -> (r: Result<
    Vec<TileImage>,
    DownloadError,
>)
    ensures
        r is Ok <==> all_fetched(results@),
        r matches Ok(tiles) ==> tiles@ == tiles_of(results@),
        r matches Err(e) ==> e matches DownloadError::TileFetchFailed { index, cause }
            && is_first_failure(results@, index as int) && results@[index as int] == Err::<
            TileImage,
            TileError,
        >(cause),
{
    let ghost given = results@;
    let count = results.len();
    let mut rest = results;
    let mut tiles: Vec<TileImage> = Vec::new();
    let mut taken: usize = 0;
    while rest.len() > 0
        invariant
            given == results@,
            given.len() == count,
            taken + rest@.len() == given.len(),
            rest@ == given.skip(taken as int),
            tiles@.len() == taken,
            forall|j: int| 0 <= j < taken ==> given[j] == Ok::<TileImage, TileError>(tiles@[j]),
        decreases rest@.len(),
    {
        let ghost before = rest@;
        let item = rest.remove(0);
        assert(item == given[taken as int]);
        assert(rest@ =~= given.skip(taken + 1));
        match item {
            Ok(tile) => {
                tiles.push(tile);
            },
            Err(cause) => {
                assert(is_first_failure(given, taken as int));
                return Err(DownloadError::TileFetchFailed { index: taken, cause });
            },
        }
        taken = taken + 1;
    }
    assert(tiles@ =~= tiles_of(given));
    Ok(tiles)
}

/// The mosaic of the fetched tiles of a grid of `d` by `d` tiles. Where a
/// result is a failure, the whole fetch fails and names the first failure;
/// else the tiles are assembled.
pub fn download_decoded(
    results: Vec<Result<TileImage, TileError>>,
    d: u32,
    order: CoordinateOrder,
) -> (r: Result<Mosaic, DownloadError>)
    requires
        forall|k: int|
            0 <= k < results@.len() ==> (#[trigger] results@[k] matches Ok(tile) ==> tile.wf()),
    ensures
        r is Ok <==> all_fetched(results@) && can_assemble(tiles_of(results@), d as int),
        r matches Ok(mosaic) ==> is_mosaic_of(&mosaic, tiles_of(results@), d as int, order),
        r matches Err(e) ==> match e {
            DownloadError::TileFetchFailed { index, cause } => is_first_failure(
                results@,
                index as int,
            ) && results@[index as int] == Err::<TileImage, TileError>(cause),
            DownloadError::AssemblyError => all_fetched(results@),
        },
{
    let tiles = match collect_tiles(results) {
        Ok(tiles) => tiles,
        Err(e) => {
            return Err(e);
        },
    };
    assert forall|k: int| 0 <= k < tiles@.len() implies (#[trigger] tiles@[k]).wf() by {
        assert(results@[k] is Ok);
    }
    match assemble(&tiles, d, order) {
        Ok(mosaic) => Ok(mosaic),
        Err(_) => Err(DownloadError::AssemblyError),
    }
}

/// Whether `r` is what `download_decoded` gives for the results: the first
/// failure where there is one, else the mosaic of the tiles, or an assembly
/// error where they make no grid.
pub open spec fn is_decoded_download(
    r: Result<Mosaic, DownloadError>,
    results: Seq<Result<TileImage, TileError>>,
    d: int,
    order: CoordinateOrder,
) -> bool {
    &&& r is Ok <==> all_fetched(results) && can_assemble(tiles_of(results), d)
    &&& r matches Ok(mosaic) ==> is_mosaic_of(&mosaic, tiles_of(results), d, order)
    &&& r matches Err(e) ==> match e {
        DownloadError::TileFetchFailed { index, cause } => is_first_failure(results, index as int)
            && results[index as int] == Err::<TileImage, TileError>(cause),
        DownloadError::AssemblyError => all_fetched(results),
    }
}

/// Whether the results are what the replies stand for, one by one.
pub open spec fn are_reply_outcomes(
    results: Seq<Result<TileImage, TileError>>,
    replies: Seq<TileReply>,
) -> bool {
    &&& results.len() == replies.len()
    &&& forall|k: int| 0 <= k < results.len() ==> is_reply_outcome(#[trigger] results[k], &replies[k])
}

/// Whether `r` is the download of the replies: what `download_decoded`
/// gives for the results that the replies stand for.
pub open spec fn is_download(
    r: Result<Mosaic, DownloadError>,
    replies: Seq<TileReply>,
    d: int,
    order: CoordinateOrder,
) -> bool {
    exists|results: Seq<Result<TileImage, TileError>>|
        are_reply_outcomes(results, replies) && #[trigger] is_decoded_download(r, results, d, order)
}

/// The mosaic of a grid of `d` by `d` tiles from the replies to the
/// requests for its tiles, in the order of the tiles' indices. Each reply is
/// taken for what it stands for; the first that is refused, or cannot be
/// decoded, fails the whole fetch, with its index and its cause.
pub fn download(replies: &Vec<TileReply>, d: u32, order: CoordinateOrder) -> (r: Result<
    Mosaic,
    DownloadError,
>)
    ensures
        is_download(r, replies@, d as int, order),
        r matches Ok(mosaic) ==> mosaic.wf(),
{
    let mut results: Vec<Result<TileImage, TileError>> = Vec::new();
    let mut k: usize = 0;
    while k < replies.len()
        invariant
            k <= replies.len(),
            results@.len() == k,
            forall|j: int|
                0 <= j < k ==> (#[trigger] results@[j] matches Ok(tile) ==> tile.wf()),
            forall|j: int| 0 <= j < k ==> is_reply_outcome(#[trigger] results@[j], &replies@[j]),
        decreases replies.len() - k,
    {
        results.push(download_image(&replies[k]));
        k = k + 1;
    }
    let ghost given = results@;
    let r = download_decoded(results, d, order);
    assert(are_reply_outcomes(given, replies@));
    assert(is_decoded_download(r, given, d as int, order));
    r
}

} // verus!

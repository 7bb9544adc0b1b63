//! Uncompressed 32-bit TGA images as bytes.
use vstd::prelude::*;

verus! {

/// The size of the header of an uncompressed true-colour TGA file.
pub const HEADER_LEN: usize = 18;

/// An image of 32-bit RGBA pixels, row after row.
pub struct TargaImage {
    pub bytes: Vec<u8>,
    pub width: u32,
    pub height: u32,
}

impl TargaImage {
    pub fn new(bytes: Vec<u8>, width: u16, height: u16) -> (r: Self)
        ensures
            r.bytes@ == bytes@,
            r.width == width,
            r.height == height,
    {
        TargaImage { bytes, width: width as u32, height: height as u32 }
    }
}

/// Why a TGA file cannot be read.
#[derive(Clone, Copy, PartialEq, Eq, Structural, Debug)]
pub enum TargaError {
    /// Not 32 bits per pixel.
    UnexpectedFormat,
    /// Shorter than its header and pixels.
    Truncated,
}

/// A little-endian 16-bit field of a header.
pub open spec fn field_16(data: Seq<u8>, at: int) -> nat {
    (data[at + 1] as nat) * 256 + data[at] as nat
}

/// The width recorded in a TGA header.
pub open spec fn header_width(data: Seq<u8>) -> nat {
    field_16(data, 12)
}

/// The height recorded in a TGA header.
pub open spec fn header_height(data: Seq<u8>) -> nat {
    field_16(data, 14)
}

/// Where channel `c` of an RGBA pixel sits in a BGRA pixel, and back.
pub open spec fn swapped_channel(c: int) -> int {
    if c == 0 {
        2
    } else if c == 2 {
        0
    } else {
        c
    }
}

/// The RGBA bytes of the first `n` pixels of a TGA file, stored BGRA after
/// the header.
pub open spec fn decoded_pixels(data: Seq<u8>, n: nat) -> Seq<u8> {
    Seq::new(4 * n, |k: int| data[HEADER_LEN + 4 * (k / 4) + swapped_channel(k % 4)])
}

/// Whether `data` holds a whole 32-bit TGA image.
pub open spec fn is_complete(data: Seq<u8>) -> bool {
    data.len() >= HEADER_LEN && data.len() >= HEADER_LEN + 4 * header_width(data) * header_height(data)
}

/// The header of an uncompressed 32-bit true-colour TGA file.
pub open spec fn header(width: nat, height: nat) -> Seq<u8> {
    seq![
        0u8, 0, 2, 0, 0, 0, 0, 0, 0, 0, 0, 0,
        (width % 256) as u8, (width / 256) as u8,
        (height % 256) as u8, (height / 256) as u8,
        32, 0,
    ]
}

/// The bytes of an RGBA image with the red and blue channels of the first
/// `n` pixels exchanged.
pub open spec fn swapped_pixels(bytes: Seq<u8>, n: nat) -> Seq<u8> {
    Seq::new(
        bytes.len(),
        |k: int| if k < 4 * n { bytes[4 * (k / 4) + swapped_channel(k % 4)] } else { bytes[k] },
    )
}

proof fn lemma_pixel_count(w: nat, h: nat)
    requires
        w < 0x10000,
        h < 0x10000,
    ensures
        4 * w * h < 0x4_0000_0000,
        4 * (w * h) == 4 * w * h,
{
    assert(w * h < 0x1_0000_0000) by (nonlinear_arith)
        requires
            w < 0x10000,
            h < 0x10000,
    ;
    assert(4 * (w * h) == 4 * w * h) by (nonlinear_arith);
}

fn read_16(data: &Vec<u8>, at: usize) -> (r: u64)
    requires
        at < 16,
        at + 1 < data@.len(),
    ensures
        r == field_16(data@, at as int),
        r < 0x10000,
{
    data[at + 1] as u64 * 256 + data[at] as u64
}

/// Reads an uncompressed 32-bit TGA file: its pixels come BGRA after the
/// header and leave as RGBA.
pub fn decode_targa(data: &Vec<u8>) -> (r: Result<TargaImage, TargaError>)
    ensures
        data@.len() < HEADER_LEN ==> r == Err::<TargaImage, TargaError>(TargaError::Truncated),
        data@.len() >= HEADER_LEN && data@[16] != 32 ==> r == Err::<TargaImage, TargaError>(
            TargaError::UnexpectedFormat,
        ),
        data@.len() >= HEADER_LEN && data@[16] == 32 && !is_complete(data@) ==> r == Err::<
            TargaImage,
            TargaError,
        >(TargaError::Truncated),
        r is Ok <==> data@.len() >= HEADER_LEN && data@[16] == 32 && is_complete(data@),
        r matches Ok(image) ==> {
            &&& image.width == header_width(data@)
            &&& image.height == header_height(data@)
            &&& image.bytes@ == decoded_pixels(data@, header_width(data@) * header_height(data@))
        },
{
    if data.len() < HEADER_LEN {
        return Err(TargaError::Truncated);
    }
    if data[16] != 32 {
        return Err(TargaError::UnexpectedFormat);
    }
    let width = read_16(data, 12);
    let height = read_16(data, 14);
    proof {
        lemma_pixel_count(width as nat, height as nat);
    }
    let pixels: u64 = width * height;
    if (data.len() as u64) < HEADER_LEN as u64 + 4 * pixels {
        return Err(TargaError::Truncated);
    }
    let len = data.len();
    let ghost target = decoded_pixels(data@, (width * height) as nat);
    let mut bytes: Vec<u8> = Vec::new();
    let mut i: u64 = 0;
    while i < pixels
        invariant
            i <= pixels,
            pixels == width * height,
            HEADER_LEN + 4 * pixels <= data@.len(),
            len == data@.len(),
            target == decoded_pixels(data@, pixels as nat),
            bytes@.len() == 4 * i,
            forall|k: int| 0 <= k < 4 * i ==> bytes@[k] == target[k],
        decreases pixels - i,
    {
        let index = HEADER_LEN + 4 * (i as usize);
        bytes.push(data[index + 2]);
        bytes.push(data[index + 1]);
        bytes.push(data[index]);
        bytes.push(data[index + 3]);
        proof {
            assert forall|k: int| 4 * i <= k < 4 * (i + 1) implies bytes@[k] == target[k] by {
                assert(k / 4 == i as int);
            }
        }
        i = i + 1;
    }
    assert(bytes@ =~= target);
    Ok(TargaImage { bytes, width: width as u32, height: height as u32 })
}

/// Writes an image as an uncompressed 32-bit TGA file: the header, then the
/// pixels BGRA.
pub fn encode_targa(image: &TargaImage) -> (r: Vec<u8>)
    requires
        image.width < 0x10000,
        image.height < 0x10000,
        4 * image.width * image.height <= image.bytes@.len(),
    ensures
        r@ == header(image.width as nat, image.height as nat) + swapped_pixels(
            image.bytes@,
            (image.width * image.height) as nat,
        ),
{
    let w = image.width;
    let h = image.height;
    let mut r: Vec<u8> = vec![
        0, 0, 2, 0, 0, 0, 0, 0, 0, 0, 0, 0,
        (w % 256) as u8, (w / 256) as u8,
        (h % 256) as u8, (h / 256) as u8,
        32, 0,
    ];
    assert(r@ =~= header(w as nat, h as nat));
    proof {
        lemma_pixel_count(w as nat, h as nat);
    }
    let pixels: u64 = w as u64 * h as u64;
    let ghost head = r@;
    let ghost target = swapped_pixels(image.bytes@, pixels as nat);
    let mut k: usize = 0;
    while k < image.bytes.len()
        invariant
            k <= image.bytes@.len(),
            4 * pixels <= image.bytes@.len(),
            target == swapped_pixels(image.bytes@, pixels as nat),
            r@.len() == HEADER_LEN + k,
            r@.subrange(0, HEADER_LEN as int) == head,
            forall|j: int| 0 <= j < k ==> r@[HEADER_LEN + j] == target[j],
        decreases image.bytes.len() - k,
    {
        let c = k % 4;
        let byte = if (k as u64) < 4 * pixels && c == 0 {
            image.bytes[k + 2]
        } else if (k as u64) < 4 * pixels && c == 2 {
            image.bytes[k - 2]
        } else {
            image.bytes[k]
        };
        assert(byte == target[k as int]);
        r.push(byte);
        proof {
            assert(r@.subrange(0, HEADER_LEN as int) =~= head);
        }
        k = k + 1;
    }
    assert(r@ =~= head + target);
    r
}

/// Writing an image and reading it back gives the image again.
pub proof fn lemma_targa_round_trip(width: nat, height: nat, bytes: Seq<u8>)
    requires
        width < 0x10000,
        height < 0x10000,
        bytes.len() == 4 * width * height,
    ensures
        ({
            let file = header(width, height) + swapped_pixels(bytes, width * height);
            &&& file.len() >= HEADER_LEN && file[16] == 32
            &&& header_width(file) == width
            &&& header_height(file) == height
            &&& is_complete(file)
            &&& decoded_pixels(file, width * height) == bytes
        }),
{
    let file = header(width, height) + swapped_pixels(bytes, width * height);
    let h = header(width, height);
    assert(h.len() == 18);
    assert(file[12] == h[12] && file[13] == h[13] && file[14] == h[14] && file[15] == h[15]);
    assert(file[16] == 32);
    lemma_pixel_count(width, height);
    let d = decoded_pixels(file, width * height);
    let n = width * height;
    assert forall|k: int| 0 <= k < bytes.len() implies d[k] == bytes[k] by {
        let c = k % 4;
        let base = 4 * (k / 4);
        let at = base + swapped_channel(c);
        assert(0 <= at < 4 * n);
        assert(file[HEADER_LEN + at] == swapped_pixels(bytes, n)[at]);
        assert(at % 4 == swapped_channel(c));
        assert(at / 4 == k / 4);
    }
    assert(d =~= bytes);
}

} // verus!

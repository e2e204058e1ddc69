//! Export of still images and videos: output resolutions, the layout of
//! pixel rows read back from the GPU, and timestamped file names.
use vstd::prelude::*;
use vstd::string::*;

verus! {

/// Output resolutions offered for still images and videos.
#[derive(Clone, Copy, Debug, PartialEq, Eq, Structural)]
pub enum ExportResolution {
    HD1080p,
    QHD1440p,
    UHD4K,
    UHD8K,
    Custom(u32, u32),
}

/// Width and height in pixels.
pub open spec fn resolution_dimensions(r: ExportResolution) -> (u32, u32) {
    match r {
        ExportResolution::HD1080p => (1920, 1080),
        ExportResolution::QHD1440p => (2560, 1440),
        ExportResolution::UHD4K => (3840, 2160),
        ExportResolution::UHD8K => (7680, 4320),
        ExportResolution::Custom(w, h) => (w, h),
    }
}

/// The label a resolution carries in file names.
pub open spec fn resolution_label(r: ExportResolution) -> Seq<char> {
    match r {
        ExportResolution::HD1080p => "1080p"@,
        ExportResolution::QHD1440p => "1440p"@,
        ExportResolution::UHD4K => "4k"@,
        ExportResolution::UHD8K => "8k"@,
        ExportResolution::Custom(_, _) => "custom"@,
    }
}

impl ExportResolution {
    /// Width and height in pixels.
    pub fn dimensions(&self) -> (r: (u32, u32))
        ensures
            r == resolution_dimensions(*self),
    {
        match self {
            ExportResolution::HD1080p => (1920, 1080),
            ExportResolution::QHD1440p => (2560, 1440),
            ExportResolution::UHD4K => (3840, 2160),
            ExportResolution::UHD8K => (7680, 4320),
            ExportResolution::Custom(w, h) => (*w, *h),
        }
    }

    /// The label used in file names.
    pub fn label(&self) -> (r: &'static str)
        ensures
            r@ == resolution_label(*self),
    {
        match self {
            ExportResolution::HD1080p => "1080p",
            ExportResolution::QHD1440p => "1440p",
            ExportResolution::UHD4K => "4k",
            ExportResolution::UHD8K => "8k",
            ExportResolution::Custom(_, _) => "custom",
        }
    }
}

/// The preset resolutions are 16:9 and each is named after its height
/// (`4k` and `8k` after the 3840 and 7680 columns of UHD).
pub proof fn lemma_preset_resolutions_widescreen(r: ExportResolution)
    ensures
        !(r matches ExportResolution::Custom(_, _)) ==> resolution_dimensions(r).0 * 9
            == resolution_dimensions(r).1 * 16,
{
}

/// Bytes per RGBA8 pixel.
pub const BYTES_PER_PIXEL: u32 = 4;

/// Alignment the GPU requires of each row in a texture-to-buffer copy.
pub const ROW_ALIGNMENT: u32 = 256;

/// Side of the square tile of pixels one compute workgroup covers.
pub const WORKGROUP_SIDE: u32 = 16;

/// How rows of an image are laid out in a GPU readback buffer.
#[derive(Clone, Copy, Debug, PartialEq, Eq, Structural)]
pub struct ReadbackLayout {
    /// Bytes of pixel data in a row.
    pub unpadded_bytes_per_row: u32,
    /// Bytes a row occupies in the buffer, a multiple of [`ROW_ALIGNMENT`].
    pub padded_bytes_per_row: u32,
    /// Bytes of the whole buffer.
    pub buffer_size: u64,
}

/// `n` rounded up to the next multiple of the row alignment.
pub open spec fn align_up(n: int) -> int {
    ((n + 255) / 256) * 256
}

/// The readback layout of a `width` by `height` image.
pub open spec fn readback_layout_of(width: u32, height: u32) -> ReadbackLayout {
    ReadbackLayout {
        unpadded_bytes_per_row: (width * 4) as u32,
        padded_bytes_per_row: align_up(width * 4) as u32,
        buffer_size: (align_up(width * 4) * height) as u64,
    }
}

/// The readback layout of a `width` by `height` RGBA8 image: rows of
/// `4 * width` bytes, each padded to the row alignment.
pub fn readback_layout(width: u32, height: u32) -> (r: ReadbackLayout)
    requires
        width * 4 + 255 <= u32::MAX,
        align_up(width * 4) * height <= u32::MAX,
    ensures
        r == readback_layout_of(width, height),
        r.padded_bytes_per_row % 256 == 0,
        r.unpadded_bytes_per_row <= r.padded_bytes_per_row < r.unpadded_bytes_per_row + 256,
{
    let unpadded_bytes_per_row = width * BYTES_PER_PIXEL;
    let sum = unpadded_bytes_per_row + 255;
    let padded_bytes_per_row = sum & !255u32;
    assert(sum & !255u32 == (sum / 256) * 256) by (bit_vector);
    let buffer_size = (padded_bytes_per_row * height) as u64;
    ReadbackLayout { unpadded_bytes_per_row, padded_bytes_per_row, buffer_size }
}

/// Number of workgroups that cover `pixels` pixels along one axis.
pub fn workgroup_count(pixels: u32) -> (r: u32)
    requires
        pixels + 15 <= u32::MAX,
    ensures
        r == (pixels + 15) / 16,
        r * 16 >= pixels,
        r * 16 < pixels + 16,
{
    (pixels + 15) / WORKGROUP_SIDE
}

/// Copies the pixel rows out of a padded readback buffer: row `r` of the
/// image is the first `unpadded` bytes that start at byte `r * padded`.
pub fn unpad_rows(data: &[u8], layout: &ReadbackLayout, height: u32) -> (pixels: Vec<u8>)
    requires
        layout.unpadded_bytes_per_row <= layout.padded_bytes_per_row,
        height > 0 ==> (height - 1) * layout.padded_bytes_per_row <= u32::MAX,
        height > 0 ==> (height - 1) * layout.padded_bytes_per_row + layout.unpadded_bytes_per_row
            <= data@.len(),
    ensures
        pixels@.len() == height * layout.unpadded_bytes_per_row,
        forall|row: int, col: int|
            0 <= row < height && 0 <= col < layout.unpadded_bytes_per_row ==> #[trigger] pixels@[row
                * layout.unpadded_bytes_per_row + col] == data@[row * layout.padded_bytes_per_row
                + col],
{
    let unpadded = layout.unpadded_bytes_per_row;
    let padded = layout.padded_bytes_per_row;
    let data_len = data.len();
    let mut pixels: Vec<u8> = Vec::new();
    let mut row: u32 = 0;
    while row < height
        invariant
            unpadded <= padded,
            unpadded == layout.unpadded_bytes_per_row,
            padded == layout.padded_bytes_per_row,
            height > 0 ==> (height - 1) * padded <= u32::MAX,
            height > 0 ==> (height - 1) * padded + unpadded <= data@.len(),
            0 <= row <= height,
            data_len == data@.len(),
            pixels@.len() == row * unpadded,
            forall|r: int, c: int|
                0 <= r < row && 0 <= c < unpadded ==> #[trigger] pixels@[r * unpadded + c]
                    == data@[r * padded + c],
        decreases height - row,
    {
        proof {
            vstd::arithmetic::mul::lemma_mul_inequality(row as int, (height - 1) as int, padded as int);
        }
        let start = (row * padded) as usize;
        let mut k: usize = 0;
        let ghost base = pixels@.len();
        while k < unpadded as usize
            invariant
                unpadded <= padded,
                unpadded == layout.unpadded_bytes_per_row,
                padded == layout.padded_bytes_per_row,
                row < height,
                start == row * padded,
                start + unpadded <= data@.len(),
                data_len == data@.len(),
                base == row * unpadded,
                0 <= k <= unpadded,
                pixels@.len() == base + k,
                forall|r: int, c: int|
                    0 <= r < row && 0 <= c < unpadded ==> #[trigger] pixels@[r * unpadded + c]
                        == data@[r * padded + c],
                forall|c: int| 0 <= c < k ==> #[trigger] pixels@[base + c] == data@[start + c],
            decreases unpadded - k,
        {
            pixels.push(data[start + k]);
            k = k + 1;
            proof {
                assert forall|r: int, c: int|
                    0 <= r < row && 0 <= c < unpadded implies #[trigger] pixels@[r * unpadded + c]
                        == data@[r * padded + c] by {
                    assert(r * unpadded + c < row * unpadded) by (nonlinear_arith)
                        requires
                            0 <= r < row,
                            0 <= c < unpadded,
                    ;
                }
            }
        }
        proof {
            assert forall|r: int, c: int|
                0 <= r < row + 1 && 0 <= c < unpadded implies #[trigger] pixels@[r * unpadded + c]
                    == data@[r * padded + c] by {
                if r == row {
                    assert(pixels@[base + c] == data@[start + c]);
                }
            }
            assert((row + 1) * unpadded == row * unpadded + unpadded) by (nonlinear_arith);
        }
        row = row + 1;
    }
    pixels
}

/// Whether the video recorder reports progress after rendering `frame`
/// (counted from zero): on the first and last frame and every tenth.
pub fn frame_progress_due(frame: u32, total_frames: u32) -> (r: bool)
    requires
        frame < total_frames,
    ensures
        r == ((frame + 1) % 10 == 0 || frame == 0 || frame == total_frames - 1),
{
    (frame + 1) % 10 == 0 || frame == 0 || frame == total_frames - 1
}

/// The character of a decimal digit.
pub open spec fn digit_char(d: nat) -> char {
    (48 + d) as char
}

/// The decimal representation of `n`, without leading zeros.
pub open spec fn decimal(n: nat) -> Seq<char>
    decreases n,
{
    if n < 10 {
        seq![digit_char(n)]
    } else {
        decimal(n / 10).push(digit_char(n % 10))
    }
}

/// The number a string of decimal digits denotes.
pub open spec fn digits_value(s: Seq<char>) -> nat
    decreases s.len(),
{
    if s.len() == 0 {
        0
    } else {
        digits_value(s.drop_last()) * 10 + ((s.last() as int - 48) as nat)
    }
}

/// `decimal(n)` is a non-empty string of the digits `0` to `9` that denotes `n`.
pub proof fn lemma_decimal_denotes(n: nat)
    ensures
        decimal(n).len() >= 1,
        forall|i: int| 0 <= i < decimal(n).len() ==> '0' <= #[trigger] decimal(n)[i] <= '9',
        digits_value(decimal(n)) == n,
    decreases n,
{
    if n >= 10 {
        lemma_decimal_denotes(n / 10);
        let d = decimal(n);
        assert(d.drop_last() =~= decimal(n / 10));
        assert(d.last() == digit_char(n % 10));
        assert(digit_char(n % 10) as int == 48 + n % 10);
        assert(n == (n / 10) * 10 + n % 10);
        assert(digits_value(d) == digits_value(d.drop_last()) * 10 + ((d.last() as int - 48) as nat));
        assert(digits_value(d.drop_last()) == n / 10);
        assert forall|i: int| 0 <= i < d.len() implies '0' <= #[trigger] d[i] <= '9' by {
            if i < d.len() - 1 {
                assert(d[i] == decimal(n / 10)[i]);
            }
        }
    } else {
        assert(decimal(n).drop_last() =~= Seq::<char>::empty());
        assert(digit_char(n) as int == 48 + n);
        let d = decimal(n);
        assert(d.last() == digit_char(n));
        assert(digits_value(d.drop_last()) == 0);
        assert(digits_value(d) == digits_value(d.drop_last()) * 10 + ((d.last() as int - 48) as nat));
    }
}

/// Different numbers have different decimal representations.
pub proof fn lemma_decimal_injective(a: nat, b: nat)
    requires
        decimal(a) == decimal(b),
    ensures
        a == b,
{
    lemma_decimal_denotes(a);
    lemma_decimal_denotes(b);
}

/// `s` with every space replaced by an underscore.
pub open spec fn spaces_to_underscores(s: Seq<char>) -> Seq<char> {
    Seq::new(s.len(), |i: int| if s[i] == ' ' { '_' } else { s[i] })
}

/// The name of an exported file: `fractal_<name>_<label>_<secs>s.<ext>`,
/// where the (lower-cased) fractal name has its spaces turned into underscores.
pub open spec fn export_file_name(
    lowered_name: Seq<char>,
    label: Seq<char>,
    secs: nat,
    extension: Seq<char>,
) -> Seq<char> {
    "fractal_"@ + spaces_to_underscores(lowered_name) + "_"@ + label + "_"@ + decimal(secs)
        + "s."@ + extension
}

/// What `str::to_lowercase` gives for a string: its Unicode lowercase mapping.
pub uninterp spec fn lowercase_of(s: Seq<char>) -> Seq<char>;

/// Lower-cases a string with std's `str::to_lowercase`; the result is named
/// [`lowercase_of`] of the argument, and nothing more is stated of it.
#[verifier::external_body]
fn to_lowercase(s: &str) -> (r: String)
    ensures
        r@ == lowercase_of(s@),
{
    s.to_lowercase()
}

/// Appends a character with std's `String::push`.
#[verifier::external_body]
fn push_char(s: &mut String, c: char)
    ensures
        final(s)@ == old(s)@.push(c),
{
    s.push(c)
}

/// Seconds since the Unix epoch by the system clock, read with
/// `std::time::SystemTime::now` (a clock before the epoch reads as zero).
/// The value depends on when it is called, so nothing is stated of it.
#[verifier::external_body]
fn current_timestamp_secs() -> u64 {
    std::time::SystemTime::now().duration_since(std::time::UNIX_EPOCH).unwrap_or_default().as_secs()
}

/// Appends the decimal representation of `n`.
fn push_decimal(s: &mut String, n: u64)
    ensures
        final(s)@ == old(s)@ + decimal(n as nat),
    decreases n,
{
    if n >= 10 {
        push_decimal(s, n / 10);
    }
    let d = (n % 10) as u8;
    push_char(s, (48u8 + d) as char);
    proof {
        assert(decimal(n as nat) == (if n < 10 {
            seq![digit_char(n as nat)]
        } else {
            decimal((n / 10) as nat).push(digit_char((n % 10) as nat))
        }));
    }
}

/// Appends `name` with every space replaced by an underscore.
fn push_underscored(s: &mut String, name: &str)
    ensures
        final(s)@ == old(s)@ + spaces_to_underscores(name@),
{
    let ghost start = s@;
    let n = name.unicode_len();
    let mut i: usize = 0;
    while i < n
        invariant
            n == name@.len(),
            0 <= i <= n,
            s@ == start + spaces_to_underscores(name@.subrange(0, i as int)),
        decreases n - i,
    {
        let c = name.get_char(i);
        if c == ' ' {
            push_char(s, '_');
        } else {
            push_char(s, c);
        }
        i = i + 1;
        assert(spaces_to_underscores(name@.subrange(0, i as int)) =~= spaces_to_underscores(
            name@.subrange(0, i - 1),
        ).push(if c == ' ' { '_' } else { c }));
    }
    assert(name@.subrange(0, n as int) =~= name@);
}

/// Builds the name of an exported file from an already lower-cased fractal
/// name, a resolution label, a timestamp and an extension.
pub fn export_file_name_from(lowered_name: &str, label: &str, secs: u64, extension: &str) -> (r:
    String)
    ensures
        r@ == export_file_name(lowered_name@, label@, secs as nat, extension@),
{
    let mut s = String::from_str("fractal_");
    push_underscored(&mut s, lowered_name);
    s.append("_");
    s.append(label);
    s.append("_");
    push_decimal(&mut s, secs);
    s.append("s.");
    s.append(extension);
    s
}

/// A timestamped file name for a PNG export of the named fractal.
pub fn generate_filename(fractal_name: &str, resolution: &ExportResolution) -> (r: String)
    ensures
        exists|secs: u64|
            r@ == export_file_name(
                lowercase_of(fractal_name@),
                resolution_label(*resolution),
                secs as nat,
                "png"@,
            ),
{
    let secs = current_timestamp_secs();
    let lowered = to_lowercase(fractal_name);
    export_file_name_from(lowered.as_str(), resolution.label(), secs, "png")
}

/// A timestamped file name for a video of the named fractal.
pub fn generate_video_filename(fractal_name: &str, resolution: &ExportResolution) -> (r: String)
    ensures
        exists|secs: u64|
            r@ == export_file_name(
                lowercase_of(fractal_name@),
                resolution_label(*resolution),
                secs as nat,
                "mp4"@,
            ),
{
    let secs = current_timestamp_secs();
    let lowered = to_lowercase(fractal_name);
    export_file_name_from(lowered.as_str(), resolution.label(), secs, "mp4")
}

/// The timestamp can be read back from an export file name: names built for
/// different seconds differ, so exports made in different seconds never
/// overwrite each other.
pub proof fn lemma_export_file_name_distinguishes_seconds(
    lowered_name: Seq<char>,
    label: Seq<char>,
    a: nat,
    b: nat,
    extension: Seq<char>,
)
    requires
        a != b,
    ensures
        export_file_name(lowered_name, label, a, extension) != export_file_name(
            lowered_name,
            label,
            b,
            extension,
        ),
{
    let p = "fractal_"@ + spaces_to_underscores(lowered_name) + "_"@ + label + "_"@;
    let q = "s."@ + extension;
    let x = export_file_name(lowered_name, label, a, extension);
    let y = export_file_name(lowered_name, label, b, extension);
    assert(x =~= p + decimal(a) + q);
    assert(y =~= p + decimal(b) + q);
    if x == y {
        assert(decimal(a).len() == decimal(b).len());
        assert(x.subrange(p.len() as int, (p.len() + decimal(a).len()) as int) =~= decimal(a));
        assert(y.subrange(p.len() as int, (p.len() + decimal(b).len()) as int) =~= decimal(b));
        lemma_decimal_injective(a, b);
    }
}

} // verus!

//! The hand-off of a selection to the Google Lens web page: the selected DIB becomes an opaque
//! PNG, the PNG a base64 string inside the upload script, and only Google's own https pages may
//! talk back to the app.

use base64::Engine;
use crate::bytes::{info_header, le32};
use crate::i18n::t;
use crate::selection::{crop_accepts, crop_dib_spec, crop_rows, Area};
use crate::text::{has_prefix, same_text, starts_with};
use vstd::prelude::*;

verus! {

/// The selection's pixels, BGRA in `pixels`, as RGB triples in the same order.
pub open spec fn rgb_of(pixels: Seq<u8>, n: nat) -> Seq<u8>
    decreases n,
{
    if n == 0 {
        Seq::empty()
    } else {
        rgb_of(pixels, (n - 1) as nat) + seq![
            pixels[4 * (n - 1) + 2],
            pixels[4 * (n - 1) + 1],
            pixels[4 * (n - 1)],
        ]
    }
}

/// Three bytes per pixel.
proof fn lemma_rgb_len(pixels: Seq<u8>, n: nat)
    ensures
        rgb_of(pixels, n).len() == 3 * n,
    decreases n,
{
    if n > 0 {
        lemma_rgb_len(pixels, (n - 1) as nat);
    }
}

/// The signed 32-bit little-endian value stored at `at` in `bytes`.
pub open spec fn le_i32_at(bytes: Seq<u8>, at: int) -> int {
    let u = bytes[at] + 0x100 * bytes[at + 1] + 0x1_0000 * bytes[at + 2] + 0x100_0000 * bytes[
        at + 3
    ];
    if u >= 0x8000_0000 {
        u - 0x1_0000_0000
    } else {
        u
    }
}

/// Width of a top-down DIB: the header's width field.
pub open spec fn dib_width(dib: Seq<u8>) -> int {
    le_i32_at(dib, 4)
}

/// Height of a top-down DIB: the header's height field, negated.
pub open spec fn dib_height(dib: Seq<u8>) -> int {
    -le_i32_at(dib, 8)
}

/// A top-down 32-bit DIB of positive size whose pixels fill the rest of the buffer exactly.
pub open spec fn dib_well_formed(dib: Seq<u8>) -> bool {
    &&& dib.len() >= 40
    &&& dib_width(dib) > 0
    &&& dib_height(dib) > 0
    &&& dib.len() == 40 + dib_width(dib) * dib_height(dib) * 4
}

/// Message for a DIB shorter than its header.
pub open spec fn empty_message(english: bool) -> Seq<char> {
    if english {
        "The selected image is empty."@
    } else {
        "선택 이미지가 비어 있습니다."@
    }
}

/// Message for a DIB whose size fields do not match its length.
pub open spec fn size_message(english: bool) -> Seq<char> {
    if english {
        "The selected image size is invalid."@
    } else {
        "선택 이미지 크기가 잘못되었습니다."@
    }
}

fn le_i32_exec(bytes: &[u8], at: usize) -> (r: i64)
    requires
        at + 4 <= bytes@.len(),
    ensures
        r == le_i32_at(bytes@, at as int),
        -0x8000_0000 <= r < 0x8000_0000,
{
    let u = bytes[at] as i64 + 0x100 * bytes[at + 1] as i64 + 0x1_0000 * bytes[at + 2] as i64
        + 0x100_0000 * bytes[at + 3] as i64;
    if u >= 0x8000_0000 {
        u - 0x1_0000_0000
    } else {
        u
    }
}

/// The size and RGB pixels of a top-down 32-bit DIB, or the message that says why it cannot be
/// sent (in English when `english`): too short for its header, or sizes that do not match.
pub fn dib_rgb(dib: &[u8], english: bool) -> (r: Result<(u32, u32, Vec<u8>), String>)
    ensures
        dib@.len() < 40 ==> (r matches Err(e) && e@ == empty_message(english)),
        dib@.len() >= 40 && !dib_well_formed(dib@) ==> (r matches Err(e) && e@ == size_message(
            english,
        )),
        dib_well_formed(dib@) ==> (r matches Ok((w, h, rgb)) && w == dib_width(dib@) && h
            == dib_height(dib@) && rgb@ == rgb_of(dib@.skip(40), (w * h) as nat)),
{
    if dib.len() < 40 {
        return Err(String::from_str(t(english, "선택 이미지가 비어 있습니다.", "The selected image is empty.")));
    }
    let w = le_i32_exec(dib, 4);
    let h = -le_i32_exec(dib, 8);
    if w <= 0 || h <= 0 {
        return Err(String::from_str(t(english, "선택 이미지 크기가 잘못되었습니다.", "The selected image size is invalid.")));
    }
    assert(0 < w * h <= 0x4000_0000_0000_0000) by (nonlinear_arith)
        requires
            0 < w <= 0x8000_0000,
            0 < h <= 0x8000_0000,
    ;
    let len = dib.len();
    if len as u128 != 40 + w as u128 * h as u128 * 4 {
        return Err(String::from_str(t(english, "선택 이미지 크기가 잘못되었습니다.", "The selected image size is invalid.")));
    }
    let n = (w * h) as usize;
    let ghost pixels = dib@.skip(40);
    let mut rgb: Vec<u8> = Vec::new();
    let mut i: usize = 0;
    while i < n
        invariant
            n == w * h,
            dib@.len() == 40 + n * 4,
            len == dib@.len(),
            pixels == dib@.skip(40),
            i <= n,
            rgb@ == rgb_of(pixels, i as nat),
        decreases n - i,
    {
        let at = 40 + 4 * i;
        rgb.push(dib[at + 2]);
        rgb.push(dib[at + 1]);
        rgb.push(dib[at]);
        i += 1;
        assert(rgb@ =~= rgb_of(pixels, i as nat));
    }
    Ok((w as u32, h as u32, rgb))
}

/// The bytes the `png` crate writes for a `width` x `height` 8-bit RGB image `rgb` with
/// `Compression::Fast`, IEND included.
pub uninterp spec fn png_rgb8_fast(width: u32, height: u32, rgb: Seq<u8>) -> Seq<u8>;

/// Encodes an 8-bit RGB image with `png::Encoder` (fast compression) into memory. The image must
/// have a positive size, exactly three bytes per pixel, and raw rows (a filter byte each) that
/// fit in `isize`. On such input the crate's checks (zero sizes, colour and depth, data length)
/// all pass and writing to a `Vec` cannot fail, so it succeeds with the bytes the crate writes
/// for exactly these arguments.
#[verifier::external_body]
fn encode_png_rgb8(width: u32, height: u32, rgb: &[u8]) -> (r: Result<Vec<u8>, String>)
    requires
        0 < width,
        0 < height,
        rgb@.len() == 3 * width * height,
        (3 * width + 1) * height <= isize::MAX,
    ensures
        r is Ok,
        r matches Ok(bytes) ==> bytes@ == png_rgb8_fast(width, height, rgb@),
{
    let mut bytes = Vec::new();
    let mut encoder = png::Encoder::new(&mut bytes, width, height);
    encoder.set_color(png::ColorType::Rgb);
    encoder.set_depth(png::BitDepth::Eight);
    encoder.set_compression(png::Compression::Fast);
    let written = match encoder.write_header() {
        Ok(mut writer) => writer.write_image_data(rgb),
        Err(e) => Err(e),
    };
    match written {
        Ok(()) => Ok(bytes),
        Err(e) => Err(e.to_string()),
    }
}

/// Keeps the compiler from dropping the zeroing of a buffer that is freed right after.
#[verifier::external_body]
fn keep_zeroed(bytes: &[u8]) {
    std::hint::black_box(bytes);
}

/// Overwrites every byte with zero.
pub fn wipe(bytes: &mut Vec<u8>)
    ensures
        final(bytes)@ == crate::bytes::zeros(old(bytes)@.len()),
{
    let n = bytes.len();
    let mut i: usize = 0;
    while i < n
        invariant
            n == bytes@.len(),
            n == old(bytes)@.len(),
            i <= n,
            forall|k: int| 0 <= k < i ==> bytes@[k] == 0,
        decreases n - i,
    {
        bytes.set(i, 0);
        i += 1;
    }
    keep_zeroed(bytes.as_slice());
    assert(bytes@ =~= crate::bytes::zeros(n as nat));
}

/// The selected top-down BGRA DIB as an opaque 8-bit RGB PNG for the web form. The DIB must be
/// well formed (else the message says why, in English when `english`); the PNG is the `png`
/// crate's encoding of the DIB's pixels with their alpha dropped. The intermediate RGB copy is
/// wiped before returning.
pub fn png_from_dib(dib: &[u8], english: bool) -> (r: Result<Vec<u8>, String>)
    requires
        dib@.len() <= isize::MAX,
    ensures
        dib@.len() < 40 ==> (r matches Err(e) && e@ == empty_message(english)),
        dib@.len() >= 40 && !dib_well_formed(dib@) ==> (r matches Err(e) && e@ == size_message(
            english,
        )),
        dib_well_formed(dib@) ==> (r matches Ok(png) && png@ == png_rgb8_fast(
            dib_width(dib@) as u32,
            dib_height(dib@) as u32,
            rgb_of(dib@.skip(40), (dib_width(dib@) * dib_height(dib@)) as nat),
        )),
{
    let (w, h, mut rgb) = match dib_rgb(dib, english) {
        Ok(parts) => parts,
        Err(e) => return Err(e),
    };
    proof {
        assert(dib_well_formed(dib@));
        let n = (w * h) as nat;
        lemma_rgb_len(dib@.skip(40), n);
        assert(3 * w * h == 3 * (w * h)) by (nonlinear_arith);
        assert((3 * w + 1) * h <= 4 * (w * h)) by (nonlinear_arith)
            requires
                1 <= w,
                1 <= h,
        ;
    }
    let result = encode_png_rgb8(w, h, rgb.as_slice());
    wipe(&mut rgb);
    result
}

/// Character `v` (0..64) of the standard base64 alphabet `A-Z a-z 0-9 + /`.
pub open spec fn b64_digit(v: int) -> char {
    if v < 26 {
        (65 + v) as char
    } else if v < 52 {
        (97 + v - 26) as char
    } else if v < 62 {
        (48 + v - 52) as char
    } else if v == 62 {
        '+'
    } else {
        '/'
    }
}

/// Standard base64 with `=` padding (RFC 4648 section 4): each three bytes become four digits.
pub open spec fn base64_spec(s: Seq<u8>) -> Seq<char>
    decreases s.len(),
{
    let a = s[0] as int;
    let b = s[1] as int;
    let c = s[2] as int;
    if s.len() == 0 {
        Seq::empty()
    } else if s.len() == 1 {
        seq![b64_digit(a / 4), b64_digit((a % 4) * 16), '=', '=']
    } else if s.len() == 2 {
        seq![b64_digit(a / 4), b64_digit((a % 4) * 16 + b / 16), b64_digit((b % 16) * 4), '=']
    } else {
        seq![
            b64_digit(a / 4),
            b64_digit((a % 4) * 16 + b / 16),
            b64_digit((b % 16) * 4 + c / 64),
            b64_digit(c % 64),
        ] + base64_spec(s.skip(3))
    }
}

/// Encodes `bytes` with `base64`'s `STANDARD` engine: the standard alphabet with padding.
#[verifier::external_body]
fn encode_base64(bytes: &[u8]) -> (r: String)
    requires
        bytes@.len() <= usize::MAX / 2,
    ensures
        r@ == base64_spec(bytes@),
{
    base64::engine::general_purpose::STANDARD.encode(bytes)
}

/// The PNG as base64 text for the upload script; the PNG buffer is wiped afterwards so the
/// capture does not linger in memory.
pub fn upload_image(png: &mut Vec<u8>) -> (image: String)
    requires
        old(png)@.len() <= usize::MAX / 2,
    ensures
        image@ == base64_spec(old(png)@),
        final(png)@ == crate::bytes::zeros(old(png)@.len()),
{
    let image = encode_base64(png.as_slice());
    wipe(png);
    image
}

/// Script run on every page of the search view: on Google's own https pages it waits for the
/// page to load, then reports a results page (`orbom:result-page`) or the Lens upload form
/// (`orbom:ready`); it gives up after 200 tries, 150 ms apart.
pub const OBSERVE_UPLOAD: &'static str = "
(() => {
  if (window.top !== window || location.protocol !== 'https:' ||
      !['www.google.com', 'google.com', 'lens.google.com'].includes(location.hostname)) return;
  let attempts = 0;
  const timer = setInterval(() => {
    if (document.readyState !== 'complete') return;
    if (location.pathname === '/search' && new URLSearchParams(location.search).has('vsrid')) {
      clearInterval(timer);
      window.ipc.postMessage('orbom:result-page');
      return;
    }
    const input = document.querySelector('input[type=\"file\"][name=\"encoded_image\"]');
    if (input && location.pathname === '/') {
      clearInterval(timer);
      window.ipc.postMessage('orbom:ready');
    } else if (++attempts > 200) { clearInterval(timer); }
  }, 150);
})();
";

/// Script run on the first results page: it follows the link to the same search's image
/// results tab (`udm=44`), or reloads the page when there is none or it is already shown.
pub const IMAGE_TAB_SCRIPT: &'static str = "(() => {
                            const link = Array.from(document.querySelectorAll('a[href]')).find(a => {
                                const url = new URL(a.href, location.href);
                                return url.origin === location.origin && url.pathname === '/search' && url.searchParams.get('udm') === '44';
                            });
                            if (link && new URLSearchParams(location.search).get('udm') !== '44') link.click();
                            else location.reload();
                        })();";

/// Script text before the base64 image: it only runs on Google's https pages, finds the Lens
/// upload input and reports failure when the input is missing.
pub const UPLOAD_HEAD: &'static str = "(() => {
          if (location.protocol !== 'https:' || !['www.google.com','google.com','lens.google.com'].includes(location.hostname)) return;
          const input = document.querySelector('input[type=\"file\"][name=\"encoded_image\"]');
          if (!input) { window.ipc.postMessage('orbom:failed'); return; }
          try {
            const bytes = Uint8Array.from(atob('";

/// Script text after the image: it hands the bytes to the input as `orbom.png` and reports
/// whether that worked.
pub const UPLOAD_TAIL: &'static str = "'), c => c.charCodeAt(0));
            const transfer = new DataTransfer();
            transfer.items.add(new File([bytes], 'orbom.png', {type:'image/png'}));
            input.files = transfer.files;
            input.dispatchEvent(new Event('change', {bubbles:true}));
            window.ipc.postMessage('orbom:submitted');
          } catch (_) { window.ipc.postMessage('orbom:failed'); }
        })();";

/// The script that submits the base64 `image` to the Lens upload form. The base64 alphabet
/// cannot end the script's string literal, so the image adds no code of its own.
pub fn upload_script(image: &str) -> (script: String)
    ensures
        script@ == UPLOAD_HEAD@ + image@ + UPLOAD_TAIL@,
{
    let mut script = String::from_str(UPLOAD_HEAD);
    script.append(image);
    script.append(UPLOAD_TAIL);
    script
}

/// The user agent for the search page: the WebView's own (empty override) on desktop, or an
/// Android Chrome of WebView version `version` for Google's mobile results.
pub fn user_agent(mobile: bool, version: &str) -> (agent: String)
    ensures
        agent@ == (if mobile {
            "Mozilla/5.0 (Linux; Android 10; K) AppleWebKit/537.36 (KHTML, like Gecko) Chrome/"@
                + version@ + " Mobile Safari/537.36"@
        } else {
            Seq::<char>::empty()
        }),
{
    if mobile {
        let mut agent = String::from_str(
            "Mozilla/5.0 (Linux; Android 10; K) AppleWebKit/537.36 (KHTML, like Gecko) Chrome/",
        );
        agent.append(version);
        agent.append(" Mobile Safari/537.36");
        agent
    } else {
        proof {
            reveal_strlit("");
        }
        String::from_str("")
    }
}

/// Hosts whose pages may message the app.
pub open spec fn google_host(host: Seq<char>) -> bool {
    host == "google.com"@ || host == "www.google.com"@ || host == "lens.google.com"@
}

/// Whether a page address is one of Google's own search origins: the https scheme and exactly
/// google.com, www.google.com or lens.google.com.
pub fn google_origin(scheme: Option<&str>, host: Option<&str>) -> (r: bool)
    ensures
        r == (match (scheme, host) {
            (Some(s), Some(h)) => s@ == "https"@ && google_host(h@),
            _ => false,
        }),
{
    match (scheme, host) {
        (Some(s), Some(h)) => same_text(s, "https") && (same_text(h, "google.com") || same_text(
            h,
            "www.google.com",
        ) || same_text(h, "lens.google.com")),
        _ => false,
    }
}

/// Whether a page's request to open a new window is handed to the user's browser: only web
/// addresses (`https://` or `http://`) are; the search view itself never opens windows.
pub fn opens_in_browser(url: &str) -> (r: bool)
    ensures
        r == (starts_with(url@, "https://"@) || starts_with(url@, "http://"@)),
{
    has_prefix(url, "https://") || has_prefix(url, "http://")
}

/// What the search page reports through its message channel.
#[derive(Clone, Copy, Debug, PartialEq, Eq, Structural)]
pub enum PageEvent {
    /// The upload input is on the page.
    Ready,
    /// The image was handed to the input.
    Submitted,
    /// The upload could not be started.
    Failed,
    /// A results page has loaded.
    ResultPage,
}

/// The event a page message stands for; other messages are ignored.
pub fn page_event(body: &str) -> (r: Option<PageEvent>)
    ensures
        r == (if body@ == "orbom:ready"@ {
            Some(PageEvent::Ready)
        } else if body@ == "orbom:submitted"@ {
            Some(PageEvent::Submitted)
        } else if body@ == "orbom:failed"@ {
            Some(PageEvent::Failed)
        } else if body@ == "orbom:result-page"@ {
            Some(PageEvent::ResultPage)
        } else {
            None
        }),
{
    if same_text(body, "orbom:ready") {
        Some(PageEvent::Ready)
    } else if same_text(body, "orbom:submitted") {
        Some(PageEvent::Submitted)
    } else if same_text(body, "orbom:failed") {
        Some(PageEvent::Failed)
    } else if same_text(body, "orbom:result-page") {
        Some(PageEvent::ResultPage)
    } else {
        None
    }
}

proof fn lemma_le32_reads_back(v: u32)
    ensures
        ({
            let b = le32(v as int);
            b[0] + 0x100 * b[1] + 0x1_0000 * b[2] + 0x100_0000 * b[3] == v
        }),
{
    assert((v % 256) + 0x100 * ((v / 0x100) % 256) + 0x1_0000 * ((v / 0x1_0000) % 256) + 0x100_0000 * (
    (v / 0x100_0000) % 256) == v) by (bit_vector);
}

/// A crop reads back as it was cut: the DIB `crop_dib` builds is well formed, has the area's
/// size, and its pixels are the crop rows, so the PNG sent to the search holds exactly them.
pub proof fn law_crop_reads_back(pixels: Seq<u8>, width: int, height: int, area: Area)
    requires
        crop_accepts(pixels.len() as int, width, height, area),
    ensures
        ({
            let d = crop_dib_spec(pixels, width, area);
            &&& dib_well_formed(d)
            &&& dib_width(d) == area.w
            &&& dib_height(d) == area.h
            &&& d.skip(40) == crop_rows(pixels, width, area)
        }),
{
    let d = crop_dib_spec(pixels, width, area);
    let header = info_header(area.w as int, 0x1_0000_0000 - area.h, area.w * area.h * 4);
    assert(header.len() == 40);
    lemma_le32_reads_back(area.w as u32);
    lemma_le32_reads_back((0x1_0000_0000 - area.h) as u32);
    assert(header.subrange(4, 8) =~= le32(area.w as int));
    assert(header.subrange(8, 12) =~= le32(0x1_0000_0000 - area.h));
    assert(d[4] == header[4] && d[5] == header[5] && d[6] == header[6] && d[7] == header[7]);
    assert(d[8] == header[8] && d[9] == header[9] && d[10] == header[10] && d[11] == header[11]);
    assert(d.skip(40) =~= crop_rows(pixels, width, area));
}

} // verus!

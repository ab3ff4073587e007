use vstd::prelude::*;
use vstd::string::StringExecFns;

verus! {

/// Raw RGBA icon pixels together with the icon's size. The native icon
/// consumers (window icon, tray icon) each re-validate the same shape rule:
/// exactly four bytes per pixel.
#[derive(Debug, Clone)]
pub struct IconData {
    pub rgba: Vec<u8>,
    pub width: u32,
    pub height: u32,
}

/// An RGBA image buffer of the image crate, carried opaquely; `inner` is
/// what the unverified shell hands on to that crate.
#[verifier::external_body]
pub struct IconImage {
    pub inner: image::RgbaImage,
}

/// Relies on image::ImageBuffer::from_raw: it returns a buffer exactly when
/// the container holds at least width * height * 4 bytes (four channels of
/// one byte each), checked without overflowing.
#[verifier::external_body]
fn rgba_image_from_raw(width: u32, height: u32, rgba: &Vec<u8>) -> (r: Option<IconImage>)
    ensures
        r is Some <==> 4 * (width as nat) * (height as nat) <= rgba@.len(),
{
    match image::RgbaImage::from_raw(width, height, rgba.clone()) {
        Some(inner) => Some(IconImage { inner }),
        None => None,
    }
}

impl IconData {
    /// Exactly four bytes per pixel: the validity rule that every native
    /// icon consumer checks before accepting the data.
    pub open spec fn wf(self) -> bool {
        self.rgba@.len() == 4 * (self.width as nat) * (self.height as nat)
    }

    /// Whether the pixel buffer's length matches the claimed size exactly.
    pub fn is_valid(&self) -> (b: bool)
        ensures
            b == self.wf(),
    {
        proof {
            assert((4 * (self.width as int)) * (self.height as int) <= 4 * 0xffff_ffff
                * 0xffff_ffff) by (nonlinear_arith)
                requires
                    self.width as int <= 0xffff_ffff,
                    self.height as int <= 0xffff_ffff,
            ;
        }
        let expected: u128 = 4u128 * (self.width as u128) * (self.height as u128);
        (self.rgba.len() as u128) == expected
    }

    /// Re-interpret the raw data as an RGBA image buffer; fails when the
    /// buffer is too short for the claimed size.
    pub fn to_image(&self) -> (r: Result<IconImage, String>)
        ensures
            r is Ok <==> 4 * (self.width as nat) * (self.height as nat) <= self.rgba@.len(),
            r matches Err(e) ==> e@ == "Invalid IconData"@,
    {
        match rgba_image_from_raw(self.width, self.height, &self.rgba) {
            Some(image) => Ok(image),
            None => Err(String::from_str("Invalid IconData")),
        }
    }
}

/// Valid icon data always yields an image: the exact four-bytes-per-pixel
/// rule is at least as strong as the image buffer's length check.
pub proof fn lemma_valid_icon_converts(icon: IconData)
    requires
        icon.wf(),
    ensures
        4 * (icon.width as nat) * (icon.height as nat) <= icon.rgba@.len(),
{
}

} // verus!

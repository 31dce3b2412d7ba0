//! The shadow raster a scaled presentation draws into: the host's frame at
//! the committed mode's size, kept between frames so partial updates add to
//! it, and cleared whenever its geometry or format changes.
use vstd::prelude::*;
use crate::protocol::{bytes_per_pixel, format_bytes_per_pixel, DisplayStateSnapshot, PixelFormatError};

verus! {

/// The geometry and format a shadow raster holds.
#[derive(Clone, Copy, Debug, PartialEq, Eq, Structural)]
pub struct ShadowRasterIdentity {
    pub width: u32,
    pub height: u32,
    pub format: u8,
}

/// Whether activating a shadow kept its pixels or cleared them.
#[derive(Clone, Copy, Debug, PartialEq, Eq, Structural)]
pub enum ShadowActivation {
    Preserved,
    Zeroed,
}

/// Why a shadow raster could not be made or activated.
#[derive(Clone, Copy, Debug, PartialEq, Eq, Structural)]
pub enum ShadowError {
    ZeroCapacity,
    Allocation { capacity: usize },
    Format(PixelFormatError),
    PitchOverflow,
    LengthOverflow,
    CapacityExceeded { len: usize, capacity: usize },
}

/// The shadow raster: its geometry, its pixels, the capacity it was made
/// with (when made up front), the identity it holds and whether its pixels
/// are still the host's.
#[derive(Debug)]
pub struct ShadowFramebuffer {
    pub width: u32,
    pub height: u32,
    pub pitch: usize,
    pub pixels: Vec<u8>,
    pub preallocated_capacity: Option<usize>,
    pub identity: Option<ShadowRasterIdentity>,
    pub content_valid: bool,
}

/// The identity of the raster a committed state needs.
pub fn shadow_identity(snapshot: &DisplayStateSnapshot) -> (r: ShadowRasterIdentity)
    ensures
        r == (ShadowRasterIdentity {
            width: snapshot.mode.hdisplay as u32,
            height: snapshot.mode.vdisplay as u32,
            format: snapshot.format,
        }),
{
    ShadowRasterIdentity {
        width: snapshot.mode.hdisplay as u32,
        height: snapshot.mode.vdisplay as u32,
        format: snapshot.format,
    }
}

/// Reserves room for exactly `additional` more bytes.
#[verifier::external_body]
fn try_reserve_exact_bytes(v: &mut Vec<u8>, additional: usize) -> (r: bool)
    ensures
        final(v)@ == old(v)@,
{
    v.try_reserve_exact(additional).is_ok()
}

/// The pitch and length of the raster an identity needs, or why they
/// cannot be computed.
pub open spec fn shadow_geometry(identity: ShadowRasterIdentity) -> Result<(usize, usize), ShadowError> {
    match format_bytes_per_pixel(identity.format) {
        None => Err(ShadowError::Format(PixelFormatError::Unsupported { format: identity.format })),
        Some(bpp) => if identity.width * bpp > usize::MAX {
            Err(ShadowError::PitchOverflow)
        } else if identity.width * bpp * identity.height > usize::MAX {
            Err(ShadowError::LengthOverflow)
        } else {
            Ok(((identity.width * bpp) as usize, (identity.width * bpp * identity.height) as usize))
        },
    }
}

impl Default for ShadowFramebuffer {
    /// An empty raster that grows to whatever is activated.
    fn default() -> (r: ShadowFramebuffer)
        ensures
            r.width == 0 && r.height == 0 && r.pitch == 0,
            r.pixels@ == Seq::<u8>::empty(),
            r.preallocated_capacity is None,
            r.identity is None,
            !r.content_valid,
    {
        ShadowFramebuffer {
            width: 0,
            height: 0,
            pitch: 0,
            pixels: Vec::new(),
            preallocated_capacity: None,
            identity: None,
            content_valid: false,
        }
    }
}

impl ShadowFramebuffer {
    /// A raster of `max_capacity` zero bytes made up front, which every
    /// activation must fit in. A zero capacity is refused, and so is one the
    /// allocator cannot provide.
    pub fn preallocated(max_capacity: usize) -> (r: Result<ShadowFramebuffer, ShadowError>)
        ensures
            (r == Err::<ShadowFramebuffer, ShadowError>(ShadowError::ZeroCapacity)) <==> max_capacity
                == 0,
            max_capacity > 0 ==> (r is Ok || r == Err::<ShadowFramebuffer, ShadowError>(
                ShadowError::Allocation { capacity: max_capacity },
            )),
            r matches Ok(s) ==> {
                &&& max_capacity > 0
                &&& s.pixels@ == Seq::new(max_capacity as nat, |i: int| 0u8)
                &&& s.preallocated_capacity == Some(max_capacity)
                &&& s.width == 0 && s.height == 0 && s.pitch == 0
                &&& s.identity is None
                &&& !s.content_valid
            },
    {
        if max_capacity == 0 {
            return Err(ShadowError::ZeroCapacity);
        }
        let mut pixels: Vec<u8> = Vec::new();
        if !try_reserve_exact_bytes(&mut pixels, max_capacity) {
            return Err(ShadowError::Allocation { capacity: max_capacity });
        }
        pixels.resize(max_capacity, 0u8);
        assert(pixels@ =~= Seq::new(max_capacity as nat, |i: int| 0u8));
        Ok(
            ShadowFramebuffer {
                width: 0,
                height: 0,
                pitch: 0,
                pixels,
                preallocated_capacity: Some(max_capacity),
                identity: None,
                content_valid: false,
            },
        )
    }

    /// Makes the raster hold `identity`. A raster made up front keeps its
    /// pixels and must have room for the identity; another one is remade at
    /// the needed length when that differs. The pixels are kept when the
    /// raster already held this identity with valid content, and otherwise
    /// cleared over the needed length.
    pub fn activate_scaled(&mut self, identity: ShadowRasterIdentity) -> (r: Result<
        ShadowActivation,
        ShadowError,
    >)
        ensures
            match shadow_geometry(identity) {
                Err(e) => r == Err::<ShadowActivation, ShadowError>(e) && *final(self) == *old(self),
                Ok((pitch, len)) => match old(self).preallocated_capacity {
                    Some(capacity) if len > capacity || old(self).pixels@.len() != capacity => r
                        == Err::<ShadowActivation, ShadowError>(
                        ShadowError::CapacityExceeded { len, capacity },
                    ) && *final(self) == *old(self),
                    _ => {
                        let kept = if old(self).preallocated_capacity is None && old(self).pixels@.len() != len {
                            Seq::new(len as nat, |i: int| 0u8)
                        } else {
                            old(self).pixels@
                        };
                        let preserve = old(self).identity == Some(identity) && old(self).content_valid;
                        &&& final(self).width == identity.width
                        &&& final(self).height == identity.height
                        &&& final(self).pitch == pitch
                        &&& final(self).identity == Some(identity)
                        &&& final(self).content_valid
                        &&& final(self).preallocated_capacity == old(self).preallocated_capacity
                        &&& preserve ==> r == Ok::<ShadowActivation, ShadowError>(
                            ShadowActivation::Preserved,
                        ) && final(self).pixels@ == kept
                        &&& !preserve ==> r == Ok::<ShadowActivation, ShadowError>(
                            ShadowActivation::Zeroed,
                        ) && final(self).pixels@ == Seq::new(len as nat, |i: int| 0u8)
                            + kept.skip(len as int)
                    }
                },
            },
    {
        let bpp = match bytes_per_pixel(identity.format) {
            Ok(b) => b,
            Err(e) => return Err(ShadowError::Format(e)),
        };
        let pitch = match (identity.width as usize).checked_mul(bpp) {
            Some(p) => p,
            None => return Err(ShadowError::PitchOverflow),
        };
        let len = match pitch.checked_mul(identity.height as usize) {
            Some(l) => l,
            None => return Err(ShadowError::LengthOverflow),
        };
        if let Some(capacity) = self.preallocated_capacity {
            if !(len <= capacity && self.pixels.len() == capacity) {
                return Err(ShadowError::CapacityExceeded { len, capacity });
            }
        } else if self.pixels.len() != len {
            self.pixels = vec![0u8; len];
            assert(self.pixels@ =~= Seq::new(len as nat, |i: int| 0u8));
        }
        let ghost kept = self.pixels@;
        self.width = identity.width;
        self.height = identity.height;
        self.pitch = pitch;
        let preserve = self.identity == Some(identity) && self.content_valid;
        self.identity = Some(identity);
        self.content_valid = true;
        if preserve {
            Ok(ShadowActivation::Preserved)
        } else {
            let mut i: usize = 0;
            while i < len
                invariant
                    0 <= i <= len,
                    len <= kept.len(),
                    self.pixels@.len() == kept.len(),
                    forall|j: int| 0 <= j < i ==> self.pixels@[j] == 0u8,
                    forall|j: int| i <= j < kept.len() ==> self.pixels@[j] == kept[j],
                    self.width == identity.width,
                    self.height == identity.height,
                    self.pitch == pitch,
                    self.identity == Some(identity),
                    self.content_valid,
                    self.preallocated_capacity == old(self).preallocated_capacity,
                decreases len - i,
            {
                self.pixels.set(i, 0u8);
                i = i + 1;
            }
            assert(self.pixels@ =~= Seq::new(len as nat, |i: int| 0u8) + kept.skip(len as int));
            Ok(ShadowActivation::Zeroed)
        }
    }

    /// Makes the raster hold `identity`, as `activate_scaled` does.
    pub fn ensure_size(&mut self, identity: ShadowRasterIdentity) -> (r: Result<(), ShadowError>)
        ensures
            match shadow_geometry(identity) {
                Err(e) => r == Err::<(), ShadowError>(e) && *final(self) == *old(self),
                Ok((pitch, len)) => match old(self).preallocated_capacity {
                    Some(capacity) if len > capacity || old(self).pixels@.len() != capacity => r
                        == Err::<(), ShadowError>(ShadowError::CapacityExceeded { len, capacity })
                        && *final(self) == *old(self),
                    _ => r is Ok && final(self).identity == Some(identity) && final(self).content_valid && final(self).pitch == pitch,
                },
            },
    {
        match self.activate_scaled(identity) {
            Ok(_) => Ok(()),
            Err(e) => Err(e),
        }
    }

    /// Whether the raster holds `identity` with valid content.
    pub fn is_active(&self, identity: ShadowRasterIdentity) -> (r: bool)
        ensures
            r == (self.identity == Some(identity) && self.content_valid),
    {
        self.identity == Some(identity) && self.content_valid
    }

    /// The pixels are no longer the host's; the next activation clears them.
    pub fn invalidate_content(&mut self)
        ensures
            *final(self) == (ShadowFramebuffer { content_valid: false, ..*old(self) }),
    {
        self.content_valid = false;
    }
}

} // verus!

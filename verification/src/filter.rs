//! The five recognized resampling kernels. The crate only selects a kernel
//! and forwards it; running it is the renderer's business.

use vstd::prelude::*;

verus! {

/// The interpolation kernel the renderer uses when scaling the native
/// pixel buffer to the resolved target size.
#[derive(Clone, Copy, Debug, PartialEq, Eq, Structural)]
pub enum ResampleFilterKind {
    Nearest,
    Triangle,
    CatmullRom,
    Gaussian,
    Lanczos3,
}

impl Default for ResampleFilterKind {
    /// The kernel used when the caller names none.
    fn default() -> (r: Self)
        ensures
            r == ResampleFilterKind::Gaussian,
    {
        ResampleFilterKind::Gaussian
    }
}

/// The kernel a user-supplied name denotes; an unrecognized name denotes
/// none, never a silent fallback.
pub open spec fn filter_of(name: Seq<char>) -> Option<ResampleFilterKind> {
    if name == "nearest"@ {
        Some(ResampleFilterKind::Nearest)
    } else if name == "triangle"@ {
        Some(ResampleFilterKind::Triangle)
    } else if name == "catmullrom"@ {
        Some(ResampleFilterKind::CatmullRom)
    } else if name == "gaussian"@ {
        Some(ResampleFilterKind::Gaussian)
    } else if name == "lanczos3"@ {
        Some(ResampleFilterKind::Lanczos3)
    } else {
        None
    }
}

/// Looks a filter name up; `None` reports an unknown name to the caller,
/// which treats it as a terminal input error.
pub fn get_filter(name: String) -> (r: Option<ResampleFilterKind>)
    ensures
        r == filter_of(name@),
{
    if name == "nearest".to_owned() {
        Some(ResampleFilterKind::Nearest)
    } else if name == "triangle".to_owned() {
        Some(ResampleFilterKind::Triangle)
    } else if name == "catmullrom".to_owned() {
        Some(ResampleFilterKind::CatmullRom)
    } else if name == "gaussian".to_owned() {
        Some(ResampleFilterKind::Gaussian)
    } else if name == "lanczos3".to_owned() {
        Some(ResampleFilterKind::Lanczos3)
    } else {
        None
    }
}

} // verus!

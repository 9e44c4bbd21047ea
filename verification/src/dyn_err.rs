//! Dynamic error support: folding precise errors into one opaque type.

use vstd::prelude::*;
use vstd::std_specs::convert::IntoSpec;

verus! {

/// An opaque dynamic error: what is kept of an error once its precise
/// type has been given up, a line of description.
#[derive(Debug, PartialEq, Eq)]
pub struct DynErr {
    pub description: String,
}

/// Short for mapping the error of a result through `Into`.
pub trait MapErrTo<T, Src>: Sized {
    /// How the receiver reads as a result.
    spec fn map_err_to_src(self) -> Result<T, Src>;

    fn map_err_to<Dest>(self) -> (r: Result<T, Dest>) where Src: Into<Dest>
        ensures
            (match self.map_err_to_src() {
                Ok(t) => r == Ok::<T, Dest>(t),
                Err(e) => r is Err && (<Src as IntoSpec<Dest>>::obeys_into_spec() ==> r
                    == Err::<T, Dest>(e.into_spec())),
            }),
    ;
}

impl<T, Src> MapErrTo<T, Src> for Result<T, Src> {
    open spec fn map_err_to_src(self) -> Result<T, Src> {
        self
    }

    fn map_err_to<Dest>(self) -> (r: Result<T, Dest>) where Src: Into<Dest> {
        match self {
            Ok(t) => Ok(t),
            Err(e) => Err(e.into()),
        }
    }
}

/// Maps a precise error to the opaque dynamic error.
pub trait MapDynErr<T, Src>: Sized {
    /// How the receiver reads as a result.
    spec fn map_dyn_err_src(self) -> Result<T, Src>;

    fn map_dyn_err(self) -> (r: Result<T, DynErr>) where Src: Into<DynErr>
        ensures
            (match self.map_dyn_err_src() {
                Ok(t) => r == Ok::<T, DynErr>(t),
                Err(e) => r is Err && (<Src as IntoSpec<DynErr>>::obeys_into_spec() ==> r
                    == Err::<T, DynErr>(e.into_spec())),
            }),
    ;
}

impl<T, Src> MapDynErr<T, Src> for Result<T, Src> {
    open spec fn map_dyn_err_src(self) -> Result<T, Src> {
        self
    }

    fn map_dyn_err(self) -> (r: Result<T, DynErr>) where Src: Into<DynErr> {
        match self {
            Ok(t) => Ok(t),
            Err(e) => Err(e.into()),
        }
    }
}

} // verus!

//! The life of a model handle: loaded once, shared read-only by any number
//! of conversions, released once.
//!
//! The three states are three types. A `LoadCall` is a model that has not
//! been acquired yet, a `ModelWrapper` is an acquired one, a `FreeCall` is one
//! whose release is under way. Each step consumes the value of the state it
//! leaves, none of the types can be copied, and only the functions here make
//! them: a handle that was given up for release cannot reach a conversion or
//! a second release.

use vstd::prelude::*;
use vstd::string::StringSliceAdditionalSpecFns;
use crate::errors::Error;
use crate::marshal::{no_nul, nul_terminated, to_native_bytes};

verus! {

/// The status with which the engine reports a successful release.
pub const FREE_SUCCESS: i32 = 1;

/// A model as the engine knows it: the address of memory that the engine
/// owns.
#[derive(Debug)]
pub struct Model {
    pub model_ptr: usize,
}

/// An acquired model. Its address is never null.
#[derive(Debug)]
pub struct ModelWrapper(Model);

impl View for ModelWrapper {
    type V = Model;

    closed spec fn view(&self) -> Model {
        self.0
    }
}

impl ModelWrapper {
    #[verifier::type_invariant]
    spec fn acquired(self) -> bool {
        self.0.model_ptr != 0
    }

    /// The model behind this handle.
    pub fn model(&self) -> (model: &Model)
        ensures
            *model == self@,
            model.model_ptr != 0,
    {
        proof {
            use_type_invariant(self);
        }
        &self.0
    }
}

/// A load that is ready to be made: the engine's load function is to be
/// called with `path()`.
#[derive(Debug)]
pub struct LoadCall {
    path: Vec<u8>,
}

impl View for LoadCall {
    type V = Seq<u8>;

    closed spec fn view(&self) -> Seq<u8> {
        self.path@
    }
}

/// What a load amounts to once the engine has answered with `model_ptr`.
pub open spec fn load_outcome(model_ptr: usize) -> Result<Model, Error> {
    if model_ptr == 0 {
        Err(Error::LoadModelError)
    } else {
        Ok(Model { model_ptr })
    }
}

impl LoadCall {
    /// The path as the engine takes it: its bytes and a terminating NUL.
    pub fn path(&self) -> (path: &Vec<u8>)
        ensures
            path@ == self@,
    {
        &self.path
    }

    /// Takes the engine's answer to the load. A null address is a failed
    /// load and yields no handle; any other address becomes the handle.
    pub fn complete(self, model_ptr: usize) -> (loaded: Result<ModelWrapper, Error>)
        ensures
            loaded is Ok <==> model_ptr != 0,
            match loaded {
                Ok(model_wrapper) => load_outcome(model_ptr) == Ok::<Model, Error>(model_wrapper@),
                Err(error) => load_outcome(model_ptr) == Err::<Model, Error>(error),
            },
    {
        if model_ptr == 0 {
            Err(Error::LoadModelError)
        } else {
            Ok(ModelWrapper(Model { model_ptr }))
        }
    }
}

/// Prepares the load of the model stored at `model_path`.
///
/// A path with a NUL byte in it cannot be told to the engine, which would
/// read it only up to that byte; callers rule it out with
/// `is_native_text`.
pub fn load_model(model_path: &str) -> (call: LoadCall)
    requires
        no_nul(model_path.spec_bytes()),
    ensures
        call@ == nul_terminated(model_path.spec_bytes()),
{
    LoadCall { path: to_native_bytes(model_path) }
}

/// A release that is ready to be made: the engine's free function is to be
/// called with `model_ptr()`, once.
#[derive(Debug)]
pub struct FreeCall {
    model_ptr: usize,
}

impl View for FreeCall {
    type V = Model;

    closed spec fn view(&self) -> Model {
        Model { model_ptr: self.model_ptr }
    }
}

/// What a release amounts to once the engine has answered with `status`.
pub open spec fn free_outcome(status: i32) -> Result<(), Error> {
    if status == FREE_SUCCESS {
        Ok(())
    } else {
        Err(Error::FreeModelError)
    }
}

impl FreeCall {
    /// The address to hand to the engine's free function.
    pub fn model_ptr(&self) -> (model_ptr: usize)
        ensures
            model_ptr == self@.model_ptr,
    {
        self.model_ptr
    }

    /// Takes the engine's answer to the release.
    pub fn complete(self, status: i32) -> (freed: Result<(), Error>)
        ensures
            freed is Ok <==> status == FREE_SUCCESS,
            freed == free_outcome(status),
    {
        if status == FREE_SUCCESS {
            Ok(())
        } else {
            Err(Error::FreeModelError)
        }
    }
}

/// Gives up the handle for release. The handle is consumed: no conversion
/// can be prepared from it afterwards, and it cannot be released again.
/// Conversions prepared earlier borrow the handle, so none of them can still
/// be pending here.
pub fn free_model(model_wrapper: ModelWrapper) -> (call: FreeCall)
    ensures
        call@ == model_wrapper@,
        call@.model_ptr != 0,
{
    proof {
        use_type_invariant(&model_wrapper);
    }
    FreeCall { model_ptr: model_wrapper.0.model_ptr }
}

/// When the engine hands out a model and later reports its release as
/// successful, neither step fails: the load yields the handle for exactly
/// that model and the release yields success.
pub proof fn lemma_load_then_free_succeeds(model_ptr: usize, status: i32)
    requires
        model_ptr != 0,
        status == FREE_SUCCESS,
    ensures
        load_outcome(model_ptr) == Ok::<Model, Error>(Model { model_ptr }),
        free_outcome(status) == Ok::<(), Error>(()),
{
}

} // verus!

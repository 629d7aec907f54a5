//! Turning the bytes of a guest module into a component that can be
//! instantiated.

use vstd::prelude::*;
use crate::error::{or_error, CompileError};

verus! {

/// Whether `wit_component::ComponentEncoder::module`, called on a fresh
/// encoder, takes these bytes: they parse as a core module, and the interface
/// description in its custom sections, if there is one, can be read.
pub uninterp spec fn module_accepted(module: Seq<u8>) -> bool;

/// Whether `wit_component::ComponentEncoder::encode`, with validation on,
/// succeeds on a fresh encoder that was handed this module and nothing else.
pub uninterp spec fn encodable(module: Seq<u8>) -> bool;

/// The bytes of the component that `ComponentEncoder::encode` gives on a
/// fresh encoder that was handed this module and nothing else.
pub uninterp spec fn encoding_of(module: Seq<u8>) -> Seq<u8>;

/// Whether `wasmtime::component::Component::from_binary` compiles these bytes
/// for this engine.
pub uninterp spec fn engine_takes(engine: wasmtime::Engine, component: Seq<u8>) -> bool;

/// Makes an encoder with `wit_component::ComponentEncoder::default`, hands it
/// the module with `ComponentEncoder::module`, and calls
/// `ComponentEncoder::validate(true)` and `ComponentEncoder::encode`. The
/// outer result is that of `module`, the inner one that of `encode`. Both
/// depend on the bytes of the module alone.
#[verifier::external_body]
fn encode_fresh(module: &[u8]) -> (r: Result<Result<Vec<u8>, anyhow::Error>, anyhow::Error>)
    ensures
        r is Ok <==> module_accepted(module@),
        r matches Ok(inner) ==> (inner is Ok <==> encodable(module@)),
        r matches Ok(Ok(bytes)) ==> bytes@ == encoding_of(module@),
{
    let mut encoder = wit_component::ComponentEncoder::default();
    encoder.module(module)?;
    Ok(encoder.validate(true).encode())
}

/// Calls `wasmtime::component::Component::from_binary`: the compiled
/// component, or the engine's error.
#[verifier::external_body]
fn component_from_binary(engine: &wasmtime::Engine, binary: &[u8]) -> (r: Result<
    wasmtime::component::Component,
    anyhow::Error,
>)
    ensures
        r is Ok <==> engine_takes(*engine, binary@),
{
    wasmtime::component::Component::from_binary(engine, binary)
}

/// Encodes a core module as a component. Bytes that are no module with a
/// readable interface description are `Malformed`; a module that cannot be
/// encoded, or whose encoding does not validate, is `Encoding`.
pub fn encode_module(raw_bytes: &[u8]) -> (r: Result<Vec<u8>, CompileError>)
    ensures
        r is Ok <==> module_accepted(raw_bytes@) && encodable(raw_bytes@),
        r matches Ok(bytes) ==> bytes@ == encoding_of(raw_bytes@),
        r == Err::<Vec<u8>, CompileError>(CompileError::Malformed) <==> !module_accepted(
            raw_bytes@,
        ),
        r == Err::<Vec<u8>, CompileError>(CompileError::Encoding) <==> module_accepted(raw_bytes@)
            && !encodable(raw_bytes@),
{
    match or_error(encode_fresh(raw_bytes), CompileError::Malformed) {
        Ok(encoded) => or_error(encoded, CompileError::Encoding),
        Err(e) => Err(e),
    }
}

/// Whether `r` is what loading the component bytes `component` for `engine`
/// gives: the artifact compiled from them if the engine takes them, and
/// `Validation` if not.
pub open spec fn loaded(
    engine: wasmtime::Engine,
    component: Seq<u8>,
    r: Result<Artifact, CompileError>,
) -> bool {
    &&& r is Ok <==> engine_takes(engine, component)
    &&& r matches Ok(artifact) ==> {
        &&& artifact.encoding() == component
        &&& artifact.engine() == engine
        &&& artifact.wf()
    }
    &&& r matches Err(e) ==> e == CompileError::Validation
}

/// A guest module in its compiled, linkable form. There is no way to make one
/// but from bytes that its engine has validated and compiled.
pub struct Artifact {
    component: wasmtime::component::Component,
    encoding: Ghost<Seq<u8>>,
    engine: Ghost<wasmtime::Engine>,
}

impl Artifact {
    /// The component bytes that the artifact was compiled from.
    pub closed spec fn encoding(&self) -> Seq<u8> {
        self.encoding@
    }

    /// The engine that the artifact was compiled for.
    pub closed spec fn engine(&self) -> wasmtime::Engine {
        self.engine@
    }

    /// The component that the artifact holds.
    pub closed spec fn compiled(&self) -> wasmtime::component::Component {
        self.component
    }

    #[verifier::type_invariant]
    pub closed spec fn wf(self) -> bool {
        engine_takes(self.engine@, self.encoding@)
    }

    /// Validates and compiles the bytes of a component for `engine`. It
    /// succeeds exactly on the bytes that the engine takes; the failure is
    /// `Validation`. The engine is not changed.
    pub fn load(engine: &wasmtime::Engine, component_bytes: &[u8]) -> (r: Result<
        Artifact,
        CompileError,
    >)
        ensures
            loaded(*engine, component_bytes@, r),
    {
        match or_error(component_from_binary(engine, component_bytes), CompileError::Validation) {
            Ok(component) => Ok(
                Artifact { component, encoding: Ghost(component_bytes@), engine: Ghost(*engine) },
            ),
            Err(e) => Err(e),
        }
    }

    /// Compiles a module for `engine`: `encode_module`, then `load` on the
    /// bytes that came out. `Malformed` and `Encoding` come exactly as from
    /// `encode_module`; for a module that can be encoded the result is what
    /// `load` gives on its encoding.
    pub fn compile(engine: &wasmtime::Engine, raw_bytes: &[u8]) -> (r: Result<Artifact, CompileError>)
        ensures
            r == Err::<Artifact, CompileError>(CompileError::Malformed) <==> !module_accepted(
                raw_bytes@,
            ),
            r == Err::<Artifact, CompileError>(CompileError::Encoding) <==> module_accepted(
                raw_bytes@,
            ) && !encodable(raw_bytes@),
            module_accepted(raw_bytes@) && encodable(raw_bytes@) ==> loaded(
                *engine,
                encoding_of(raw_bytes@),
                r,
            ),
    {
        match encode_module(raw_bytes) {
            Ok(component_bytes) => Artifact::load(engine, component_bytes.as_slice()),
            Err(e) => Err(e),
        }
    }

    /// The compiled component, for instantiation.
    pub fn component(&self) -> (c: &wasmtime::component::Component)
        ensures
            *c == self.compiled(),
    {
        &self.component
    }
}

} // verus!

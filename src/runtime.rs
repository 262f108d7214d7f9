//! The bytecode runtime's host-side rules: one live module at a time, swapped
//! whole on reload, and calls into it that fail as values, never as crashes.
use vstd::prelude::*;
use crate::watcher::same_chars;

verus! {

/// The exports that every indicator module must provide.
#[derive(Clone, Copy, Debug, PartialEq, Eq, Structural)]
pub enum Export {
    /// `sensor_update(sensorId: i32, value: f64) -> f64`
    SensorUpdate,
    /// `apply(frame: i32)`
    Apply,
}

impl Export {
    /// The name the module exports it under.
    pub fn name(&self) -> (s: &'static str)
        ensures
            *self == Export::SensorUpdate ==> s == "sensor_update",
            *self == Export::Apply ==> s == "apply",
    {
        match self {
            Export::SensorUpdate => "sensor_update",
            Export::Apply => "apply",
        }
    }
}

/// A WebAssembly value type, as an import's signature lists it.
#[derive(Clone, Copy, Debug, PartialEq, Eq, Structural)]
pub enum WasmType {
    I32,
    I64,
    F32,
    F64,
}

/// Index of `set_led` in the capability table.
pub const SET_LED_INDEX: usize = 0;

/// Why a module's import cannot be bound.
#[derive(Clone, Copy, Debug, PartialEq, Eq, Structural)]
pub enum ImportError {
    /// The host offers no function of that name.
    UnknownImport,
    /// `set_led` was asked for with another signature.
    BadSignature,
}

pub open spec fn set_led_name() -> Seq<char> {
    seq!['s', 'e', 't', '_', 'l', 'e', 'd']
}

/// `set_led(index: i32, r: i32, g: i32, b: i32)`, with no result.
pub open spec fn is_set_led_signature(params: Seq<WasmType>, result: Option<WasmType>) -> bool {
    params == seq![WasmType::I32, WasmType::I32, WasmType::I32, WasmType::I32] && result is None
}

/// Binds an import that a module asks for. The capability table holds
/// `set_led` alone: any other name, or another signature, is refused.
pub fn resolve_import(field_name: &str, params: &Vec<WasmType>, result: Option<WasmType>) -> (r: Result<
    usize,
    ImportError,
>)
    ensures
        field_name@ != set_led_name() ==> r == Err::<usize, ImportError>(ImportError::UnknownImport),
        field_name@ == set_led_name() && is_set_led_signature(params@, result) ==> r == Ok::<
            usize,
            ImportError,
        >(SET_LED_INDEX),
        field_name@ == set_led_name() && !is_set_led_signature(params@, result) ==> r == Err::<
            usize,
            ImportError,
        >(ImportError::BadSignature),
{
    let want: &str = "set_led";
    proof {
        reveal_strlit("set_led");
    }
    assert(want@ =~= set_led_name());
    if !same_chars(field_name, want) {
        return Err(ImportError::UnknownImport);
    }
    let ok = params.len() == 4 && params[0] == WasmType::I32 && params[1] == WasmType::I32
        && params[2] == WasmType::I32 && params[3] == WasmType::I32 && result.is_none();
    if ok {
        assert(params@ =~= seq![WasmType::I32, WasmType::I32, WasmType::I32, WasmType::I32]);
        Ok(SET_LED_INDEX)
    } else {
        Err(ImportError::BadSignature)
    }
}

/// Why a call into the module did not return a value.
#[derive(Clone, Copy, Debug, PartialEq, Eq, Structural)]
pub enum InvokeError {
    /// The module has no export of the requested name.
    ExportMissing,
    /// Sandboxed execution faulted.
    Trap,
}

/// Calls an export of the module. `export_present` says whether the module
/// has it; only then is `call` run, and a fault it reports becomes a `Trap`.
pub fn invoke<T, X, F: FnOnce() -> Result<T, X>>(export_present: bool, call: F) -> (r: Result<
    T,
    InvokeError,
>)
    requires
        export_present ==> call.requires(()),
    ensures
        !export_present ==> r == Err::<T, InvokeError>(InvokeError::ExportMissing),
        export_present ==> exists|o: Result<T, X>|
            call.ensures((), o) && match o {
                Ok(v) => r == Ok::<T, InvokeError>(v),
                Err(_) => r == Err::<T, InvokeError>(InvokeError::Trap),
            },
{
    if !export_present {
        return Err(InvokeError::ExportMissing);
    }
    match call() {
        Ok(v) => Ok(v),
        Err(_) => Err(InvokeError::Trap),
    }
}

/// The single slot that holds the live module instance.
pub struct ModuleSlot<M> {
    current: M,
}

impl<M> ModuleSlot<M> {
    pub closed spec fn current_spec(&self) -> M {
        self.current
    }

    /// A slot holding the module loaded at start-up.
    pub fn new(m: M) -> (s: ModuleSlot<M>)
        ensures
            s.current_spec() == m,
    {
        ModuleSlot { current: m }
    }

    /// The live module.
    pub fn current(&self) -> (m: &M)
        ensures
            *m == self.current_spec(),
    {
        &self.current
    }

    /// Takes the outcome of loading a replacement module. On success the new
    /// module takes the slot and the old one is dropped; on failure the old
    /// one stays live and the error is handed back.
    pub fn replace<E>(&mut self, loaded: Result<M, E>) -> (r: Option<E>)
        ensures
            match loaded {
                Ok(m) => final(self).current_spec() == m && r is None,
                Err(e) => final(self).current_spec() == old(self).current_spec() && r == Some(e),
            },
    {
        match loaded {
            Ok(m) => {
                self.current = m;
                None
            },
            Err(e) => Some(e),
        }
    }
}

} // verus!

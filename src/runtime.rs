use vstd::prelude::*;

verus! {

/// Heap-size hint handed to the engine when it is created (32 MiB).
pub const DEFAULT_HEAP_SIZE: u32 = 32 * 1024 * 1024;

/// Stack budget, in bytes, of the execution context.
pub const DEFAULT_STACK_SIZE: usize = 8192;

/// The engine instance, as the native handle the engine returned.
#[derive(Clone, Copy, Debug, PartialEq, Eq, Structural)]
pub struct rt_rsrc {
    pub ptr: usize,
}

/// An execution context, with the engine that it was created against.
#[derive(Clone, Copy, Debug, PartialEq, Eq, Structural)]
pub struct Cx {
    pub ptr: usize,
    pub rt: rt_rsrc,
}

/// The facade: one engine and the one context that belongs to it.
///
/// Copies share the same native engine and context; when those are
/// finalized is decided by `crate::ownership::Ownership`.
#[derive(Clone, Copy, Debug, PartialEq, Eq, Structural)]
pub struct Runtime {
    pub rt: rt_rsrc,
    pub cx: Cx,
}

impl Runtime {
    /// Neither handle is null, and the context belongs to the engine.
    pub open spec fn wf(&self) -> bool {
        &&& self.rt.ptr != 0
        &&& self.cx.ptr != 0
        &&& self.cx.rt == self.rt
    }

    pub open spec fn spec_new(engine: usize, context: usize) -> Runtime {
        Runtime { rt: rt_rsrc { ptr: engine }, cx: Cx { ptr: context, rt: rt_rsrc { ptr: engine } } }
    }

    /// Assembles the facade from an engine and a context created against it.
    pub fn new(engine: usize, context: usize) -> (r: Runtime)
        requires
            engine != 0,
            context != 0,
        ensures
            r == Runtime::spec_new(engine, context),
            r.wf(),
    {
        let rt = rt_rsrc { ptr: engine };
        Runtime { rt, cx: Cx { ptr: context, rt } }
    }

    /// The native engine handle.
    pub fn rt(&self) -> (r: usize)
        ensures
            r == self.rt.ptr,
    {
        self.rt.ptr
    }

    /// The native context handle.
    pub fn cx(&self) -> (r: usize)
        ensures
            r == self.cx.ptr,
    {
        self.cx.ptr
    }
}

/// Engine-wide GC parameters that construction sets.
#[derive(Clone, Copy, Debug, PartialEq, Eq, Structural)]
pub enum GcParameter {
    /// The soft threshold on nominal heap size.
    MaxBytes,
}

/// Language versions that a context can be switched to.
#[derive(Clone, Copy, Debug, PartialEq, Eq, Structural)]
pub enum LanguageVersion {
    Latest,
}

/// The evaluation options of a context, one flag each.
#[derive(Clone, Copy, Debug, PartialEq, Eq, Structural)]
pub struct ContextOptions {
    pub var_obj_fix: bool,
    pub method_jit: bool,
    pub type_inference: bool,
    pub dont_report_uncaught: bool,
    pub api_owns_error_reporting: bool,
}

impl ContextOptions {
    pub open spec fn spec_standard() -> ContextOptions {
        ContextOptions {
            var_obj_fix: true,
            method_jit: true,
            type_inference: true,
            dont_report_uncaught: true,
            api_owns_error_reporting: true,
        }
    }

    /// The options every context of this library runs with: all of them on.
    pub fn standard() -> (r: ContextOptions)
        ensures
            r == ContextOptions::spec_standard(),
    {
        ContextOptions {
            var_obj_fix: true,
            method_jit: true,
            type_inference: true,
            dont_report_uncaught: true,
            api_owns_error_reporting: true,
        }
    }
}

/// One call into the native engine that construction asks for.
#[derive(Clone, Copy, Debug, PartialEq, Eq, Structural)]
pub enum NativeCall {
    /// Create the engine; answered with its handle, 0 on failure.
    CreateEngine { heap_size: u32 },
    SetGcParameter { engine: usize, key: GcParameter, value: u32 },
    /// Create the context; answered with its handle, 0 on failure.
    CreateContext { engine: usize, stack_size: usize },
    SetOptions { context: usize, options: ContextOptions },
    SetVersion { context: usize, version: LanguageVersion },
    /// Install the diagnostic callback (see `crate::report`).
    SetErrorReporter { context: usize },
    /// Set the GC stress-test level, at the engine's default frequency.
    SetGcZeal { context: usize, zeal: u8 },
}

/// The full sequence of native calls that builds a facade, given the
/// handles that the two creating calls return.
pub open spec fn construction_calls(engine: usize, context: usize) -> Seq<NativeCall> {
    seq![
        NativeCall::CreateEngine { heap_size: DEFAULT_HEAP_SIZE },
        NativeCall::SetGcParameter { engine, key: GcParameter::MaxBytes, value: u32::MAX },
        NativeCall::CreateContext { engine, stack_size: DEFAULT_STACK_SIZE },
        NativeCall::SetOptions { context, options: ContextOptions::spec_standard() },
        NativeCall::SetVersion { context, version: LanguageVersion::Latest },
        NativeCall::SetErrorReporter { context },
        NativeCall::SetGcZeal { context, zeal: 0 },
    ]
}

/// Why a facade could not be built. Both are fatal to the embedding.
#[derive(Clone, Copy, Debug, PartialEq, Eq, Structural)]
pub enum ConstructionError {
    NullEngine,
    NullContext,
}

/// What the caller driving construction does next.
pub enum Next {
    Call { call: NativeCall },
    Ready { runtime: Runtime },
    Fatal { error: ConstructionError },
}

/// Progress of building a facade: `issued` calls of `construction_calls`
/// have been handed out; 8 means finished, successfully or not.
pub struct Construction {
    pub issued: usize,
    pub engine: usize,
    pub context: usize,
}

impl Construction {
    pub open spec fn wf(&self) -> bool {
        &&& 1 <= self.issued <= 8
        &&& 2 <= self.issued <= 7 ==> self.engine != 0
        &&& 4 <= self.issued <= 7 ==> self.context != 0
    }

    /// Starts construction; the returned call is the first of the sequence.
    pub fn start() -> (r: (Construction, NativeCall))
        ensures
            r.0.wf(),
            r.0.issued == 1,
            forall|e: usize, c: usize| r.1 == #[trigger] construction_calls(e, c)[0],
    {
        (
            Construction { issued: 1, engine: 0, context: 0 },
            NativeCall::CreateEngine { heap_size: DEFAULT_HEAP_SIZE },
        )
    }

    /// Takes the answer to the last call handed out (a handle for the two
    /// creating calls, anything for the others) and says what comes next.
    pub fn advance(&mut self, answer: usize) -> (r: Next)
        requires
            old(self).wf(),
            old(self).issued <= 7,
        ensures
            final(self).wf(),
            final(self).engine == (if old(self).issued == 1 { answer } else { old(self).engine }),
            final(self).context == (if old(self).issued == 3 { answer } else { old(self).context }),
            (r is Fatal) <==> ((old(self).issued == 1 || old(self).issued == 3) && answer == 0),
            (r is Ready) <==> old(self).issued == 7,
            r is Fatal ==> final(self).issued == 8 && r->error == (if old(self).issued == 1 {
                ConstructionError::NullEngine
            } else {
                ConstructionError::NullContext
            }),
            r is Ready ==> final(self).issued == 8 && r->runtime == Runtime::spec_new(
                old(self).engine,
                old(self).context,
            ) && r->runtime.wf(),
            r is Call ==> final(self).issued == old(self).issued + 1 && r->call == construction_calls(
                final(self).engine,
                final(self).context,
            )[old(self).issued as int],
    {
        let i = self.issued;
        if i == 1 {
            self.engine = answer;
        } else if i == 3 {
            self.context = answer;
        }
        if (i == 1 || i == 3) && answer == 0 {
            self.issued = 8;
            let error = if i == 1 {
                ConstructionError::NullEngine
            } else {
                ConstructionError::NullContext
            };
            return Next::Fatal { error };
        }
        if i == 7 {
            self.issued = 8;
            return Next::Ready { runtime: Runtime::new(self.engine, self.context) };
        }
        let engine = self.engine;
        let context = self.context;
        let call = if i == 1 {
            NativeCall::SetGcParameter { engine, key: GcParameter::MaxBytes, value: u32::MAX }
        } else if i == 2 {
            NativeCall::CreateContext { engine, stack_size: DEFAULT_STACK_SIZE }
        } else if i == 3 {
            NativeCall::SetOptions { context, options: ContextOptions::standard() }
        } else if i == 4 {
            NativeCall::SetVersion { context, version: LanguageVersion::Latest }
        } else if i == 5 {
            NativeCall::SetErrorReporter { context }
        } else {
            NativeCall::SetGcZeal { context, zeal: 0 }
        };
        self.issued = i + 1;
        Next::Call { call }
    }
}

} // verus!

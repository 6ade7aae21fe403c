use js::evaluate::{evaluation_result, EvaluationFailed, MarshalError};
use js::ownership::{Ownership, Release};
use js::runtime::{
    Construction, ConstructionError, ContextOptions, GcParameter, LanguageVersion, NativeCall,
    Next, Runtime, DEFAULT_HEAP_SIZE, DEFAULT_STACK_SIZE,
};

fn build(engine: usize, context: usize) -> Result<Runtime, ConstructionError> {
    let (mut c, first) = Construction::start();
    assert!(first == NativeCall::CreateEngine { heap_size: DEFAULT_HEAP_SIZE });
    let mut answer: usize = engine;
    loop {
        match c.advance(answer) {
            Next::Call { call } => {
                answer = match call {
                    NativeCall::CreateContext { .. } => context,
                    _ => 0,
                };
            }
            Next::Ready { runtime } => return Ok(runtime),
            Next::Fatal { error } => return Err(error),
        }
    }
}

#[test]
fn dummy() {
    let rt = build(0x1000, 0x2000).ok().unwrap();
    let global: usize = 0x3000;
    let req = rt.prepare_evaluation(global, "1 + 1", "test", 1);
    assert!(req.is_ok());
    assert!(evaluation_result(1).is_ok());
}

#[test]
fn construction_issues_calls_in_order() {
    let (mut c, first) = Construction::start();
    assert!(first == NativeCall::CreateEngine { heap_size: 32 * 1024 * 1024 });
    let mut calls = Vec::new();
    let answers: [usize; 7] = [11, 0, 22, 0, 0, 0, 0];
    let mut ready = None;
    for a in answers.iter() {
        match c.advance(*a) {
            Next::Call { call } => calls.push(call),
            Next::Ready { runtime } => ready = Some(runtime),
            Next::Fatal { .. } => panic!("construction failed"),
        }
    }
    let expected = vec![
        NativeCall::SetGcParameter { engine: 11, key: GcParameter::MaxBytes, value: u32::MAX },
        NativeCall::CreateContext { engine: 11, stack_size: 8192 },
        NativeCall::SetOptions { context: 22, options: ContextOptions::standard() },
        NativeCall::SetVersion { context: 22, version: LanguageVersion::Latest },
        NativeCall::SetErrorReporter { context: 22 },
        NativeCall::SetGcZeal { context: 22, zeal: 0 },
    ];
    assert!(calls == expected);
    assert_eq!(DEFAULT_STACK_SIZE, 8192);
    let rt = ready.unwrap();
    assert_eq!(rt.rt(), 11);
    assert_eq!(rt.cx(), 22);
    assert!(rt.cx.rt == rt.rt);
}

#[test]
fn standard_options_are_all_on() {
    let o = ContextOptions::standard();
    assert!(o.var_obj_fix && o.method_jit && o.type_inference);
    assert!(o.dont_report_uncaught && o.api_owns_error_reporting);
}

#[test]
fn null_engine_is_fatal() {
    assert!(build(0, 5).err() == Some(ConstructionError::NullEngine));
}

#[test]
fn null_context_is_fatal() {
    assert!(build(5, 0).err() == Some(ConstructionError::NullContext));
}

#[test]
fn constructed_handles_are_not_null() {
    let rt = build(7, 9).ok().unwrap();
    assert!(rt.rt() != 0 && rt.cx() != 0);
    let copy = rt;
    assert_eq!(copy.rt(), rt.rt());
    assert_eq!(copy.cx(), rt.cx());
}

#[test]
fn copy_survives_dropping_the_first() {
    let mut o = Ownership::new(Runtime::new(1, 2));
    o.share();
    assert!(o.release().is_empty());
    assert_eq!(o.facades, 1);
    assert!(o.engine_refs > 0 && o.context_refs > 0);
    let last = o.release();
    assert!(last == vec![Release::DestroyContext { context: 2 }, Release::FinishEngine { engine: 1 }]);
}

#[test]
fn last_of_many_copies_finalizes_context_then_engine() {
    let mut o = Ownership::new(Runtime::new(3, 4));
    for _ in 0..4 {
        o.share();
    }
    let mut all = Vec::new();
    for _ in 0..5 {
        all.extend(o.release());
    }
    assert!(all == vec![Release::DestroyContext { context: 4 }, Release::FinishEngine { engine: 3 }]);
    assert_eq!(o.engine_refs, 0);
    assert_eq!(o.context_refs, 0);
}

#[test]
fn independent_facades_finalize_only_their_own_handles() {
    let mut a = Ownership::new(Runtime::new(10, 11));
    let mut b = Ownership::new(Runtime::new(20, 21));
    b.share();
    assert!(b.release().is_empty());
    assert!(a.release() == vec![Release::DestroyContext { context: 11 }, Release::FinishEngine { engine: 10 }]);
    assert!(b.release() == vec![Release::DestroyContext { context: 21 }, Release::FinishEngine { engine: 20 }]);
}

#[test]
fn evaluation_status_maps_err_sentinel() {
    assert!(evaluation_result(0) == Err(EvaluationFailed));
    assert!(evaluation_result(1) == Ok(()));
    assert!(evaluation_result(-1) == Ok(()));
}

#[test]
fn marshal_error_values() {
    assert!(MarshalError::InteriorNul { position: 3 } != MarshalError::ScriptTooLong);
}

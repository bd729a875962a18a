use core_video::attributes::AttributeDictionary;
use core_video::cv_return::{is_success, KCV_RETURN_SUCCESS};
use core_video::foreign::RefLedger;
use core_video::opengl_buffer::CVOpenGLBuffer;
use core_video::opengl_buffer_pool::{CVOpenGLBufferPool, CreateReply};

#[test]
fn success_status_is_the_fixed_value() {
    assert!(is_success(0));
    assert!(!is_success(-6662));
    assert!(!is_success(1));
    assert_eq!(KCV_RETURN_SUCCESS, 0);
}

#[test]
fn pool_creation_success_wraps_the_output_slot() {
    let mut ledger = RefLedger::new();
    ledger.register(31, 1);
    let reply = CreateReply { status: KCV_RETURN_SUCCESS, out: 31 };
    let pool = CVOpenGLBufferPool::new(reply, &ledger).expect("success status must wrap");
    assert_eq!(pool.as_raw(), 31);
    // create rule: the one reference the call produced is the one adopted
    assert_eq!(ledger.count_of(31), 1);
    pool.release(&mut ledger);
    assert_eq!(ledger.count_of(31), 0);
}

#[test]
fn pool_creation_failure_propagates_the_status_untouched() {
    let mut ledger = RefLedger::new();
    ledger.register(5, 2);
    let reply = CreateReply { status: -6662, out: 0 };
    let err = match CVOpenGLBufferPool::new(reply, &ledger) {
        Ok(_) => panic!("failure must surface"),
        Err(code) => code,
    };
    assert_eq!(err, -6662);
    // no wrap was attempted and no stray release happened
    assert_eq!(ledger.count_of(5), 2);
    assert_eq!(ledger.count_of(0), 0);
}

#[test]
fn creation_request_turns_absent_dictionaries_into_null() {
    let (pool_raw, buffer_raw) = CVOpenGLBufferPool::creation_request(None, None);
    assert_eq!(pool_raw, 0);
    assert_eq!(buffer_raw, 0);
}

#[test]
fn creation_request_passes_dictionary_addresses() {
    let mut ledger = RefLedger::new();
    ledger.register(101, 1);
    ledger.register(102, 1);
    let pool_attrs = AttributeDictionary::wrap_under_create_rule(101, &ledger);
    let buffer_attrs = AttributeDictionary::wrap_under_create_rule(102, &ledger);
    let (pool_raw, buffer_raw) =
        CVOpenGLBufferPool::creation_request(Some(&pool_attrs), Some(&buffer_attrs));
    assert_eq!(pool_raw, 101);
    assert_eq!(buffer_raw, 102);
    let (pool_raw2, buffer_raw2) = CVOpenGLBufferPool::creation_request(None, Some(&buffer_attrs));
    assert_eq!(pool_raw2, 0);
    assert_eq!(buffer_raw2, 102);
}

fn pool_for_tests(ledger: &mut RefLedger) -> CVOpenGLBufferPool {
    ledger.register(31, 1);
    let reply = CreateReply { status: KCV_RETURN_SUCCESS, out: 31 };
    CVOpenGLBufferPool::new(reply, ledger).expect("success status must wrap")
}

#[test]
fn absent_pool_attributes_are_none() {
    let mut ledger = RefLedger::new();
    let pool = pool_for_tests(&mut ledger);
    assert!(pool.get_attributes(0, &ledger).is_none());
    assert!(pool.get_opengl_buffer_attributes(0, &ledger).is_none());
}

#[test]
fn returned_attributes_come_under_the_create_rule() {
    let mut ledger = RefLedger::new();
    let pool = pool_for_tests(&mut ledger);
    // the foreign accessor returns a freshly retained dictionary: the stub
    // models that one retain before the wrap
    ledger.register(77, 1);
    let dict = pool
        .get_attributes(77, &ledger)
        .expect("non-null reply must wrap");
    assert_eq!(dict.as_raw(), 77);
    // create rule: no further retain was issued by the wrap itself
    assert_eq!(ledger.count_of(77), 1);
    // the dictionary's drop issues exactly one release
    dict.release(&mut ledger);
    assert_eq!(ledger.count_of(77), 0);
}

#[test]
fn returned_buffer_attributes_come_under_the_create_rule() {
    let mut ledger = RefLedger::new();
    let pool = pool_for_tests(&mut ledger);
    ledger.register(78, 1);
    let dict = pool
        .get_opengl_buffer_attributes(78, &ledger)
        .expect("non-null reply must wrap");
    assert_eq!(dict.as_raw(), 78);
    assert_eq!(ledger.count_of(78), 1);
    dict.release(&mut ledger);
    assert_eq!(ledger.count_of(78), 0);
}

#[test]
fn vending_a_buffer_follows_the_creation_pattern() {
    let mut ledger = RefLedger::new();
    let pool = pool_for_tests(&mut ledger);
    ledger.register(55, 1);
    let ok_reply = CreateReply { status: KCV_RETURN_SUCCESS, out: 55 };
    let buffer = pool
        .create_open_gl_buffer(ok_reply, &ledger)
        .expect("success status must wrap");
    assert_eq!(buffer.as_raw(), 55);
    assert_eq!(ledger.count_of(55), 1);
    buffer.release(&mut ledger);
    assert_eq!(ledger.count_of(55), 0);

    let err_reply = CreateReply { status: 42, out: 0 };
    let err = match pool.create_open_gl_buffer(err_reply, &ledger) {
        Ok(_) => panic!("failure must surface"),
        Err(code) => code,
    };
    assert_eq!(err, 42);
}

#[test]
fn vended_buffer_follows_the_shared_ownership_pattern() {
    let mut ledger = RefLedger::new();
    ledger.register(60, 1);
    let buffer = CVOpenGLBuffer::wrap_under_get_rule(60, &mut ledger);
    assert_eq!(ledger.count_of(60), 2);
    let clone = buffer.retain_clone(&mut ledger);
    assert_eq!(ledger.count_of(60), 3);
    clone.release(&mut ledger);
    buffer.release(&mut ledger);
    assert_eq!(ledger.count_of(60), 1);
}

#[test]
fn pool_clones_share_ownership_and_drop_net_zero() {
    let mut ledger = RefLedger::new();
    let pool = pool_for_tests(&mut ledger);
    let before = ledger.count_of(31);
    let c1 = pool.retain_clone(&mut ledger);
    let c2 = pool.retain_clone(&mut ledger);
    assert_eq!(ledger.count_of(31), before + 2);
    c1.release(&mut ledger);
    c2.release(&mut ledger);
    assert_eq!(ledger.count_of(31), before);
    pool.release(&mut ledger);
    assert_eq!(ledger.count_of(31), 0);
}

use babafx::host::{host_fetch_suite, SuiteKind};
use babafx::interact_suite::interact_suite;
use babafx::log_utils::c_str_to_str;
use babafx::memory::{header_padding, memory_suite, AllocDecision, MemoryHeader};
use babafx::message_suite::message_suite;
use babafx::multithread_suite::multithread_suite;
use babafx::ofx_constants::{kOfxStatErrBadHandle, kOfxStatErrUnsupported, kOfxStatFailed, kOfxStatOK};

#[test]
fn known_suites_at_version_one_are_provided() {
    assert_eq!(host_fetch_suite(b"OfxImageEffectSuite", 1), Some(SuiteKind::ImageEffect));
    assert_eq!(host_fetch_suite(b"OfxPropertySuite", 1), Some(SuiteKind::Property));
    assert_eq!(host_fetch_suite(b"OfxParameterSuite", 1), Some(SuiteKind::Parameter));
    assert_eq!(host_fetch_suite(b"OfxMemorySuite", 1), Some(SuiteKind::Memory));
    assert_eq!(host_fetch_suite(b"OfxMultiThreadSuite", 1), Some(SuiteKind::MultiThread));
    assert_eq!(host_fetch_suite(b"OfxMessageSuite", 1), Some(SuiteKind::Message));
    assert_eq!(host_fetch_suite(b"OfxInteractSuite", 1), Some(SuiteKind::Interact));
}

#[test]
fn other_suites_and_versions_are_not_provided() {
    assert_eq!(host_fetch_suite(b"OfxPropertySuite", 2), None);
    assert_eq!(host_fetch_suite(b"OfxTimeLineSuite", 1), None);
    assert_eq!(host_fetch_suite(&[0xff, 0x00], 1), None);
    assert_eq!(host_fetch_suite(b"", 1), None);
}

#[test]
fn c_strings_for_logs() {
    assert_eq!(c_str_to_str(None, 0), "<null>");
    assert_eq!(c_str_to_str(Some(b"OfxPropTime"), 0x10), "OfxPropTime");
    assert_eq!(c_str_to_str(Some(&[0xff]), 0x7ffd_1a2b), "<invalid utf-8> (0x7ffd1a2b)");
    assert_eq!(c_str_to_str(Some(&[0xff]), 0), "<invalid utf-8> (0x0)");
    assert_eq!(c_str_to_str(Some(&[0xc0]), 0xabc), "<invalid utf-8> (0xabc)");
}

#[test]
fn memory_suite_decisions() {
    let suite = memory_suite();
    let padding = header_padding(std::mem::size_of::<MemoryHeader>());
    assert_eq!(padding, 16);
    assert_eq!(header_padding(16), 16);
    assert_eq!(header_padding(17), 32);
    assert_eq!(header_padding(0), 0);
    assert!(matches!(suite.memory_alloc(0, padding), AllocDecision::Refuse));
    assert!(matches!(suite.memory_alloc(8, padding), AllocDecision::Allocate(24)));
    assert!(matches!(suite.memory_alloc(usize::MAX - padding, padding), AllocDecision::TooLarge));
    assert_eq!(suite.memory_free(&MemoryHeader::new(24)), kOfxStatOK);
    assert_eq!(suite.memory_free(&MemoryHeader::new(usize::MAX)), kOfxStatErrBadHandle);
}

#[test]
fn single_threaded_host() {
    let suite = multithread_suite();
    let run = suite.multi_thread(8);
    assert_eq!((run.thread_index, run.thread_max), (0, 1));
    assert_eq!(suite.multi_thread_num_cpus(), 1);
    assert_eq!(suite.multi_thread_index(), 0);
    assert_eq!(suite.multi_thread_is_spawned_thread(), kOfxStatOK);
    for status in [
        suite.mutex_create(),
        suite.mutex_destroy(),
        suite.mutex_lock(),
        suite.mutex_unlock(),
        suite.mutex_try_lock(),
    ] {
        assert_eq!(status, kOfxStatErrUnsupported);
    }
}

#[test]
fn interact_and_message_are_unsupported() {
    let interact = interact_suite();
    assert_eq!(interact.interact_swap_buffers(), kOfxStatErrUnsupported);
    assert_eq!(interact.interact_redraw(), kOfxStatErrUnsupported);
    assert_eq!(interact.interact_get_property_set(true), kOfxStatErrUnsupported);
    assert_eq!(interact.interact_get_property_set(false), kOfxStatFailed);
    assert_eq!(message_suite().message(), kOfxStatErrUnsupported);
}

#[test]
fn allocated_memory_frees() {
    let suite = memory_suite();
    let padding = header_padding(std::mem::size_of::<MemoryHeader>());
    match suite.memory_alloc(4096, padding) {
        AllocDecision::Allocate(total) => {
            assert_eq!(total, 4096 + padding);
            assert_eq!(suite.memory_free(&MemoryHeader::new(total)), kOfxStatOK);
        }
        _ => panic!("expected an allocation"),
    }
}

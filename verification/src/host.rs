//! The host's answer to a plug-in that asks for a suite.

use vstd::prelude::*;

use crate::text::{decode_c_text, text_is, utf8_text};

verus! {

/// The suites the host provides.
#[derive(PartialEq, Eq, Structural, Clone, Copy, Debug)]
pub enum SuiteKind {
    ImageEffect,
    Property,
    Parameter,
    Memory,
    MultiThread,
    Message,
    Interact,
}

/// The suite that answers a request for `name` at `version`; only version 1 of each is provided.
pub open spec fn spec_suite_for(name: Seq<char>, version: i32) -> Option<SuiteKind> {
    if version != 1 {
        None
    } else if name == "OfxImageEffectSuite"@ {
        Some(SuiteKind::ImageEffect)
    } else if name == "OfxPropertySuite"@ {
        Some(SuiteKind::Property)
    } else if name == "OfxParameterSuite"@ {
        Some(SuiteKind::Parameter)
    } else if name == "OfxMemorySuite"@ {
        Some(SuiteKind::Memory)
    } else if name == "OfxMultiThreadSuite"@ {
        Some(SuiteKind::MultiThread)
    } else if name == "OfxMessageSuite"@ {
        Some(SuiteKind::Message)
    } else if name == "OfxInteractSuite"@ {
        Some(SuiteKind::Interact)
    } else {
        None
    }
}

/// No suite is provided at a version other than 1.
pub proof fn law_only_version_one(name: Seq<char>, version: i32)
    requires
        version != 1,
    ensures
        spec_suite_for(name, version) is None,
{
}

/// At version 1 each suite's name is answered with that suite, and the empty
/// name (what bytes that are not text read as) with none.
pub proof fn law_each_name_fetches_its_suite()
    ensures
        spec_suite_for("OfxImageEffectSuite"@, 1) == Some(SuiteKind::ImageEffect),
        spec_suite_for("OfxPropertySuite"@, 1) == Some(SuiteKind::Property),
        spec_suite_for("OfxParameterSuite"@, 1) == Some(SuiteKind::Parameter),
        spec_suite_for("OfxMemorySuite"@, 1) == Some(SuiteKind::Memory),
        spec_suite_for("OfxMultiThreadSuite"@, 1) == Some(SuiteKind::MultiThread),
        spec_suite_for("OfxMessageSuite"@, 1) == Some(SuiteKind::Message),
        spec_suite_for("OfxInteractSuite"@, 1) == Some(SuiteKind::Interact),
        spec_suite_for(Seq::empty(), 1) is None,
{
    reveal_strlit("OfxImageEffectSuite");
    reveal_strlit("OfxPropertySuite");
    reveal_strlit("OfxParameterSuite");
    reveal_strlit("OfxMemorySuite");
    reveal_strlit("OfxMultiThreadSuite");
    reveal_strlit("OfxMessageSuite");
    reveal_strlit("OfxInteractSuite");
    assert("OfxPropertySuite"@.len() != "OfxImageEffectSuite"@.len());
    assert("OfxParameterSuite"@.len() != "OfxImageEffectSuite"@.len());
    assert("OfxParameterSuite"@.len() != "OfxPropertySuite"@.len());
    assert("OfxMemorySuite"@.len() != "OfxImageEffectSuite"@.len());
    assert("OfxMemorySuite"@.len() != "OfxPropertySuite"@.len());
    assert("OfxMemorySuite"@.len() != "OfxParameterSuite"@.len());
    assert("OfxMultiThreadSuite"@[3] != "OfxImageEffectSuite"@[3]);
    assert("OfxMultiThreadSuite"@.len() != "OfxPropertySuite"@.len());
    assert("OfxMultiThreadSuite"@.len() != "OfxParameterSuite"@.len());
    assert("OfxMultiThreadSuite"@.len() != "OfxMemorySuite"@.len());
    assert("OfxMessageSuite"@.len() != "OfxImageEffectSuite"@.len());
    assert("OfxMessageSuite"@.len() != "OfxPropertySuite"@.len());
    assert("OfxMessageSuite"@.len() != "OfxParameterSuite"@.len());
    assert("OfxMessageSuite"@.len() != "OfxMemorySuite"@.len());
    assert("OfxMessageSuite"@.len() != "OfxMultiThreadSuite"@.len());
    assert("OfxInteractSuite"@.len() != "OfxImageEffectSuite"@.len());
    assert("OfxInteractSuite"@[3] != "OfxPropertySuite"@[3]);
    assert("OfxInteractSuite"@.len() != "OfxParameterSuite"@.len());
    assert("OfxInteractSuite"@.len() != "OfxMemorySuite"@.len());
    assert("OfxInteractSuite"@.len() != "OfxMultiThreadSuite"@.len());
    assert("OfxInteractSuite"@.len() != "OfxMessageSuite"@.len());
}

/// The name that a requested suite's bytes spell; bytes that are not text read as the empty name.
pub open spec fn requested_name(bytes: Seq<u8>) -> Seq<char> {
    match utf8_text(bytes) {
        Some(n) => n,
        None => Seq::empty(),
    }
}

/// The suite that answers a plug-in asking for the suite named by
/// `suite_name` at `suite_version`, or none.
pub fn host_fetch_suite(suite_name: &[u8], suite_version: i32) -> (r: Option<SuiteKind>)
    ensures
        r == spec_suite_for(requested_name(suite_name@), suite_version),
{
    let name = match decode_c_text(suite_name) {
        Some(n) => n,
        None => String::new(),
    };
    if suite_version != 1 {
        None
    } else if text_is(&name, "OfxImageEffectSuite") {
        Some(SuiteKind::ImageEffect)
    } else if text_is(&name, "OfxPropertySuite") {
        Some(SuiteKind::Property)
    } else if text_is(&name, "OfxParameterSuite") {
        Some(SuiteKind::Parameter)
    } else if text_is(&name, "OfxMemorySuite") {
        Some(SuiteKind::Memory)
    } else if text_is(&name, "OfxMultiThreadSuite") {
        Some(SuiteKind::MultiThread)
    } else if text_is(&name, "OfxMessageSuite") {
        Some(SuiteKind::Message)
    } else if text_is(&name, "OfxInteractSuite") {
        Some(SuiteKind::Interact)
    } else {
        None
    }
}

} // verus!

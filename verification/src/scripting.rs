//! What a request script leaves behind.

use vstd::prelude::*;

verus! {

/// Where a script sets a variable.
#[derive(Clone, Copy, PartialEq, Eq, Structural, Debug)]
pub enum VarScope {
    Global,
    Environment,
    Request,
}

/// A change that a script asks for.
#[derive(Debug)]
pub enum SideEffect {
    SetVariable { scope: VarScope, name: String, value: String },
}

/// Model of [`SideEffect`].
#[verifier::ext_equal]
pub enum SideEffectModel {
    SetVariable { scope: VarScope, name: Seq<char>, value: Seq<char> },
}

impl DeepView for SideEffect {
    type V = SideEffectModel;

    open spec fn deep_view(&self) -> SideEffectModel {
        match self {
            SideEffect::SetVariable { scope, name, value } => SideEffectModel::SetVariable {
                scope: *scope,
                name: name@,
                value: value@,
            },
        }
    }
}

/// The outcome of a script run.
#[derive(Debug)]
pub struct ScriptResult {
    pub effects: Vec<SideEffect>,
    pub assertions_passed: u64,
    pub assertions_failed: u64,
}

/// Model of [`ScriptResult`].
#[verifier::ext_equal]
pub struct ScriptResultModel {
    pub effects: Seq<SideEffectModel>,
    pub assertions_passed: u64,
    pub assertions_failed: u64,
}

impl DeepView for ScriptResult {
    type V = ScriptResultModel;

    open spec fn deep_view(&self) -> ScriptResultModel {
        ScriptResultModel {
            effects: self.effects.deep_view(),
            assertions_passed: self.assertions_passed,
            assertions_failed: self.assertions_failed,
        }
    }
}

impl Default for ScriptResult {
    fn default() -> (r: ScriptResult)
        ensures
            r.effects@.len() == 0,
            r.assertions_passed == 0,
            r.assertions_failed == 0,
    {
        ScriptResult { effects: Vec::new(), assertions_passed: 0, assertions_failed: 0 }
    }
}

} // verus!

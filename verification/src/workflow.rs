//! The initialization workflow: the ordered, fallible sequence of steps
//! that creates a new wallet once the configuration is in hand.  The
//! workflow owns every decision — which step is due, in what order, and
//! what each failure means — while a driver performs the steps that
//! touch the node client and the wallet handle and reports each outcome
//! back.  The workflow completes only after the keychain-creation step
//! has succeeded, so a configuration file left behind by an earlier
//! failed attempt can never stand in for a created wallet.

use vstd::prelude::*;
use vstd::string::StringExecFns;
use crate::chain::{ChainType, as_external_chain, set_global_chain_type};
use crate::errors::WalletError;
use crate::paths::WALLET_CONFIG_FILE_NAME;

verus! {

/// The stages of the initialization workflow, in the order they are
/// passed through.  `Complete` and `Failed` are terminal.
#[derive(Clone, Copy, PartialEq, Eq, Structural, Debug)]
pub enum InitStage {
    /// Construct the node-query client bound to the configured address.
    BuildNodeClient,
    /// Instantiate the wallet handle against configuration and client.
    InstantiateWallet,
    /// Bind the lifecycle provider to the top-level directory.
    BindDirectory,
    /// Materialize the configuration file at the top-level directory.
    WriteConfigFile,
    /// Create the wallet's keychain, protected by the password.
    CreateWallet,
    /// Ask the lifecycle provider for its top-level directory.
    QueryDirectory,
    /// The workflow succeeded.
    Complete,
    /// A step failed; the workflow is over.
    Failed,
}

/// The position of a stage in the workflow's order.
pub open spec fn stage_index(stage: InitStage) -> int {
    match stage {
        InitStage::BuildNodeClient => 0,
        InitStage::InstantiateWallet => 1,
        InitStage::BindDirectory => 2,
        InitStage::WriteConfigFile => 3,
        InitStage::CreateWallet => 4,
        InitStage::QueryDirectory => 5,
        InitStage::Complete => 6,
        InitStage::Failed => 7,
    }
}

/// The stage that follows a stage when its step succeeds.
pub open spec fn next_stage_spec(stage: InitStage) -> InitStage {
    match stage {
        InitStage::BuildNodeClient => InitStage::InstantiateWallet,
        InitStage::InstantiateWallet => InitStage::BindDirectory,
        InitStage::BindDirectory => InitStage::WriteConfigFile,
        InitStage::WriteConfigFile => InitStage::CreateWallet,
        InitStage::CreateWallet => InitStage::QueryDirectory,
        InitStage::QueryDirectory => InitStage::Complete,
        InitStage::Complete => InitStage::Complete,
        InitStage::Failed => InitStage::Failed,
    }
}

/// How one reported outcome moves the workflow between stages: a
/// terminal stage never moves again, a success moves one stage forward,
/// and a failure is terminal.
pub open spec fn step_stage_spec(stage: InitStage, success: bool) -> InitStage {
    if stage is Complete || stage is Failed {
        stage
    } else if success {
        next_stage_spec(stage)
    } else {
        InitStage::Failed
    }
}

/// The stage reached from `stage` after a whole sequence of reported
/// outcomes (`true` for a step that succeeded).
pub open spec fn run_stages_spec(stage: InitStage, outcomes: Seq<bool>) -> InitStage
    decreases outcomes.len(),
{
    if outcomes.len() == 0 {
        stage
    } else {
        run_stages_spec(step_stage_spec(stage, outcomes[0]), outcomes.drop_first())
    }
}

/// Which error a failure at a stage is reported as: failures while the
/// node client or wallet handle is constructed are construction errors,
/// and failures of the lifecycle provider's steps are lifecycle errors.
pub open spec fn failure_kind_matches(stage: InitStage, error: WalletError) -> bool {
    match stage {
        InitStage::BuildNodeClient | InitStage::InstantiateWallet => error is Construction,
        InitStage::BindDirectory | InitStage::WriteConfigFile | InitStage::CreateWallet
            | InitStage::QueryDirectory => error is Lifecycle,
        InitStage::Complete | InitStage::Failed => false,
    }
}

/// A successful step moves the workflow exactly one stage forward, so
/// the stages are passed through strictly in order: in particular the
/// configuration file is written strictly before the keychain is
/// created.
pub proof fn lemma_stages_move_forward(stage: InitStage)
    requires
        !(stage is Complete),
        !(stage is Failed),
    ensures
        stage_index(step_stage_spec(stage, true)) == stage_index(stage) + 1,
{
}

/// A failed workflow stays failed, whatever is reported afterwards.
pub proof fn lemma_failed_runs_stay_failed(outcomes: Seq<bool>)
    ensures
        run_stages_spec(InitStage::Failed, outcomes) == InitStage::Failed,
    decreases outcomes.len(),
{
    if outcomes.len() > 0 {
        lemma_failed_runs_stay_failed(outcomes.drop_first());
    }
}

/// No silent success: a run that completes passes through the
/// keychain-creation stage and that step succeeded.  Starting from any
/// stage at or before `CreateWallet`, a sequence of outcomes that ends
/// in `Complete` contains a position where the stage was `CreateWallet`
/// and the reported outcome was success.  A configuration file that
/// already exists therefore never lets the workflow complete while
/// skipping keychain creation, and a run whose keychain step fails (for
/// instance because a wallet already exists) never reports success.
pub proof fn lemma_complete_implies_wallet_created(stage: InitStage, outcomes: Seq<bool>)
    requires
        stage_index(stage) <= stage_index(InitStage::CreateWallet),
        run_stages_spec(stage, outcomes) == InitStage::Complete,
    ensures
        exists|i: int|
            0 <= i < outcomes.len() && outcomes[i] && run_stages_spec(stage, outcomes.take(i))
                == InitStage::CreateWallet,
    decreases outcomes.len(),
{
    if outcomes.len() == 0 {
        assert(false);
    } else {
        let rest = outcomes.drop_first();
        if !outcomes[0] {
            lemma_failed_runs_stay_failed(rest);
            assert(false);
        } else if stage == InitStage::CreateWallet {
            assert(outcomes.take(0) =~= Seq::<bool>::empty());
            assert(run_stages_spec(stage, outcomes.take(0)) == InitStage::CreateWallet);
        } else {
            let next = step_stage_spec(stage, true);
            lemma_complete_implies_wallet_created(next, rest);
            let i = choose|i: int|
                0 <= i < rest.len() && rest[i] && run_stages_spec(next, rest.take(i))
                    == InitStage::CreateWallet;
            assert(outcomes.take(i + 1).drop_first() =~= rest.take(i));
            assert(run_stages_spec(stage, outcomes.take(i + 1)) == run_stages_spec(
                next,
                outcomes.take(i + 1).drop_first(),
            ));
            assert(outcomes[i + 1] == rest[i]);
            assert(0 <= i + 1 < outcomes.len() && outcomes[i + 1] && run_stages_spec(
                stage,
                outcomes.take(i + 1),
            ) == InitStage::CreateWallet);
        }
    }
}

/// Retry safety: a workflow begun anew — in particular retried after an
/// earlier attempt failed once the configuration file was already
/// written — still passes through the keychain-creation step before it
/// can complete.  A configuration held over from before is settings
/// only, never evidence that a wallet exists.
pub proof fn lemma_retry_must_create_wallet(outcomes: Seq<bool>)
    requires
        run_stages_spec(InitStage::BuildNodeClient, outcomes) == InitStage::Complete,
    ensures
        exists|i: int|
            0 <= i < outcomes.len() && outcomes[i] && run_stages_spec(
                InitStage::BuildNodeClient,
                outcomes.take(i),
            ) == InitStage::CreateWallet,
{
    lemma_complete_implies_wallet_created(InitStage::BuildNodeClient, outcomes);
}

/// One failed step is final: once an outcome reported while the
/// workflow was still active is a failure, the whole run ends failed —
/// never in silent success.
pub proof fn lemma_step_failure_is_final(stage: InitStage, outcomes: Seq<bool>, i: int)
    requires
        0 <= i < outcomes.len(),
        !(run_stages_spec(stage, outcomes.take(i)) is Complete),
        !(run_stages_spec(stage, outcomes.take(i)) is Failed),
        !outcomes[i],
    ensures
        run_stages_spec(stage, outcomes) == InitStage::Failed,
    decreases outcomes.len(),
{
    if i == 0 {
        let rest = outcomes.drop_first();
        assert(outcomes.take(0) =~= Seq::<bool>::empty());
        assert(step_stage_spec(stage, outcomes[0]) == InitStage::Failed);
        lemma_failed_runs_stay_failed(rest);
    } else {
        let rest = outcomes.drop_first();
        let next = step_stage_spec(stage, outcomes[0]);
        assert(outcomes.take(i).drop_first() =~= rest.take(i - 1));
        assert(run_stages_spec(stage, outcomes.take(i)) == run_stages_spec(
            next,
            outcomes.take(i).drop_first(),
        ));
        lemma_step_failure_is_final(next, rest, i - 1);
    }
}

/// Consuming one more outcome applies exactly one decision step: the
/// stage after `i + 1` outcomes is the stage after `i` of them moved by
/// the outcome in between.
pub proof fn lemma_run_take_step(stage: InitStage, outcomes: Seq<bool>, i: int)
    requires
        0 <= i < outcomes.len(),
    ensures
        run_stages_spec(stage, outcomes.take(i + 1)) == step_stage_spec(
            run_stages_spec(stage, outcomes.take(i)),
            outcomes[i],
        ),
    decreases i,
{
    if i == 0 {
        let first = outcomes.take(1);
        assert(first.len() == 1);
        assert(first[0] == outcomes[0]);
        assert(first.drop_first() =~= Seq::<bool>::empty());
        assert(outcomes.take(0) =~= Seq::<bool>::empty());
        assert(run_stages_spec(stage, first) == run_stages_spec(
            step_stage_spec(stage, outcomes[0]),
            first.drop_first(),
        ));
        assert(run_stages_spec(step_stage_spec(stage, outcomes[0]), Seq::<bool>::empty())
            == step_stage_spec(stage, outcomes[0]));
        assert(run_stages_spec(stage, outcomes.take(0)) == stage);
    } else {
        let rest = outcomes.drop_first();
        let next = step_stage_spec(stage, outcomes[0]);
        lemma_run_take_step(next, rest, i - 1);
        assert(outcomes.take(i + 1).len() == i + 1);
        assert(outcomes.take(i + 1)[0] == outcomes[0]);
        assert(outcomes.take(i).len() == i);
        assert(outcomes.take(i)[0] == outcomes[0]);
        assert(outcomes.take(i + 1).drop_first() =~= rest.take(i));
        assert(outcomes.take(i).drop_first() =~= rest.take(i - 1));
        assert(run_stages_spec(stage, outcomes.take(i + 1)) == run_stages_spec(
            next,
            rest.take(i),
        ));
        assert(run_stages_spec(stage, outcomes.take(i)) == run_stages_spec(
            next,
            rest.take(i - 1),
        ));
        assert(rest[i - 1] == outcomes[i]);
    }
}

/// Along one run the workflow never moves backwards: the position of
/// the stage reached is non-decreasing as outcomes are consumed.
pub proof fn lemma_stage_index_is_monotone(stage: InitStage, outcomes: Seq<bool>, i: int, j: int)
    requires
        0 <= i <= j <= outcomes.len(),
    ensures
        stage_index(run_stages_spec(stage, outcomes.take(i))) <= stage_index(
            run_stages_spec(stage, outcomes.take(j)),
        ),
    decreases j - i,
{
    if i < j {
        lemma_run_take_step(stage, outcomes, j - 1);
        lemma_stage_index_is_monotone(stage, outcomes, i, j - 1);
    }
}

/// At most one wallet per run: once the keychain-creation step has been
/// passed with success, no later point of the same run stands at the
/// keychain-creation stage again, so a single run never asks twice for
/// a wallet to be created.
pub proof fn lemma_create_wallet_at_most_once(stage: InitStage, outcomes: Seq<bool>, i: int, j: int)
    requires
        0 <= i < j <= outcomes.len(),
        run_stages_spec(stage, outcomes.take(i)) == InitStage::CreateWallet,
        outcomes[i],
    ensures
        run_stages_spec(stage, outcomes.take(j)) != InitStage::CreateWallet,
{
    lemma_run_take_step(stage, outcomes, i);
    lemma_stage_index_is_monotone(stage, outcomes, i + 1, j);
}

/// What the driver must do next for the workflow.
pub enum InitAction {
    /// Construct the node-query client bound to this node-API address.
    BuildNodeClient {
        /// HTTP address of the node's check API.
        node_api_addr: String,
    },
    /// Instantiate the wallet handle against the configuration and the
    /// node client.
    InstantiateWallet,
    /// Bind the lifecycle provider's top-level directory to this path.
    BindDirectory {
        /// The resolved top-level wallet directory.
        path: String,
    },
    /// Ask the lifecycle provider to write the configuration file.
    WriteConfigFile {
        /// The resolved top-level wallet directory.
        path: String,
        /// Name of the configuration file to write.
        file_name: String,
        /// The chain type the configuration is written for.
        chain_type: ChainType,
    },
    /// Ask the lifecycle provider to create the wallet's keychain.
    CreateWallet {
        /// The password protecting the new keychain.
        password: String,
        /// Number of words in the generated mnemonic.
        mnemonic_length: usize,
        /// A recovery phrase to restore from, when one was supplied.
        recovery_phrase: Option<String>,
        /// Whether the keychain is being restored rather than created.
        restore: bool,
    },
    /// Ask the lifecycle provider for its top-level directory.
    QueryDirectory,
}

/// What the driver reports after performing an action.
pub enum StepReport {
    /// The step succeeded.
    Succeeded,
    /// The final step succeeded and the lifecycle provider reported
    /// this top-level directory.
    SucceededWithDir {
        /// The directory the provider reported.
        dir: String,
    },
    /// The step failed, with the collaborator's message.
    Failed {
        /// The collaborator's description of the failure.
        message: String,
    },
}

/// One in-flight run of the initialization workflow.
pub struct InitWorkflow {
    /// The stage the workflow is at.
    pub stage: InitStage,
    /// The chain type the wallet is created for.
    pub chain_type: ChainType,
    /// The resolved top-level wallet directory.
    pub path: String,
    /// The node-API address the node client is bound to.
    pub node_addr: String,
    /// The password protecting the new keychain.
    pub password: String,
    /// Number of words in the generated mnemonic.
    pub mnemonic_length: usize,
    /// A recovery phrase to restore from, when one was supplied.
    pub recovery_phrase: Option<String>,
    /// The directory confirmed on completion.
    pub confirmed_dir: Option<String>,
    /// The error the workflow failed with, if it failed.
    pub failure: Option<WalletError>,
}

impl InitWorkflow {
    /// A workflow is well formed when its terminal data matches its
    /// stage: a confirmed directory exactly on completion, an error
    /// exactly on failure.
    pub open spec fn wf(self) -> bool {
        &&& (self.stage is Complete <==> self.confirmed_dir is Some)
        &&& (self.stage is Failed <==> self.failure is Some)
    }

    /// Whether the workflow still owes a step.
    pub open spec fn is_active(self) -> bool {
        !(self.stage is Complete) && !(self.stage is Failed)
    }

    /// A workflow poised at its first step, which will create a wallet
    /// with a 32-word mnemonic and no recovery phrase, as a fresh
    /// (non-restore) creation.
    pub fn start(chain_type: ChainType, path: String, node_addr: String, password: String) -> (r:
        InitWorkflow)
        ensures
            r.wf(),
            r.stage == InitStage::BuildNodeClient,
            r.chain_type == chain_type,
            r.path == path,
            r.node_addr == node_addr,
            r.password == password,
            r.mnemonic_length == 32,
            r.recovery_phrase is None,
    {
        InitWorkflow {
            stage: InitStage::BuildNodeClient,
            chain_type,
            path,
            node_addr,
            password,
            mnemonic_length: 32,
            recovery_phrase: None,
            confirmed_dir: None,
            failure: None,
        }
    }

    /// The action the driver owes at the current stage, or nothing when
    /// the workflow is over.
    pub fn next_action(&self) -> (r: Option<InitAction>)
        ensures
            (r is Some) == self.is_active(),
            self.stage is BuildNodeClient ==> (r matches Some(
                InitAction::BuildNodeClient { node_api_addr },
            ) && node_api_addr@ == self.node_addr@),
            self.stage is InstantiateWallet ==> r == Some(InitAction::InstantiateWallet),
            self.stage is BindDirectory ==> (r matches Some(InitAction::BindDirectory { path })
                && path@ == self.path@),
            self.stage is WriteConfigFile ==> (r matches Some(
                InitAction::WriteConfigFile { path, file_name, chain_type },
            ) && path@ == self.path@ && file_name@ == "grin-wallet.toml"@ && chain_type
                == self.chain_type),
            self.stage is CreateWallet ==> (r matches Some(
                InitAction::CreateWallet { password, mnemonic_length, recovery_phrase, restore },
            ) && password@ == self.password@ && mnemonic_length == self.mnemonic_length && (
            recovery_phrase is Some <==> self.recovery_phrase is Some) && (
            recovery_phrase matches Some(p) ==> p@ == self.recovery_phrase->Some_0@) && restore
                == false),
            self.stage is QueryDirectory ==> r == Some(InitAction::QueryDirectory),
    {
        match self.stage {
            InitStage::BuildNodeClient => Some(
                InitAction::BuildNodeClient { node_api_addr: self.node_addr.clone() },
            ),
            InitStage::InstantiateWallet => Some(InitAction::InstantiateWallet),
            InitStage::BindDirectory => Some(InitAction::BindDirectory { path: self.path.clone() }),
            InitStage::WriteConfigFile => Some(
                InitAction::WriteConfigFile {
                    path: self.path.clone(),
                    file_name: String::from_str(WALLET_CONFIG_FILE_NAME),
                    chain_type: self.chain_type,
                },
            ),
            InitStage::CreateWallet => {
                let recovery_phrase = match &self.recovery_phrase {
                    Some(p) => Some(p.clone()),
                    None => None,
                };
                Some(
                    InitAction::CreateWallet {
                        password: self.password.clone(),
                        mnemonic_length: self.mnemonic_length,
                        recovery_phrase,
                        restore: false,
                    },
                )
            }
            InitStage::QueryDirectory => Some(InitAction::QueryDirectory),
            InitStage::Complete => None,
            InitStage::Failed => None,
        }
    }

    /// Consumes the driver's report for the current step: a terminal
    /// workflow never moves again, a success moves the workflow one
    /// stage forward (propagating the chain type to the process-wide
    /// indicator once the storage directory is bound), and a failure
    /// ends the workflow with the error the failed stage stands for.
    pub fn advance(&mut self, report: StepReport)
        requires
            old(self).wf(),
        ensures
            final(self).wf(),
            final(self).stage == step_stage_spec(old(self).stage, !(report is Failed)),
            final(self).chain_type == old(self).chain_type,
            final(self).path@ == old(self).path@,
            final(self).node_addr@ == old(self).node_addr@,
            final(self).password@ == old(self).password@,
            final(self).mnemonic_length == old(self).mnemonic_length,
            final(self).recovery_phrase == old(self).recovery_phrase,
            !old(self).is_active() ==> *final(self) == *old(self),
            old(self).is_active() ==> (report matches StepReport::Failed { message } ==> (
            final(self).failure matches Some(e) && e.message_spec() == message@
                && failure_kind_matches(old(self).stage, e))),
            old(self).is_active() && !(report is Failed) && !(old(self).stage is QueryDirectory)
                ==> final(self).confirmed_dir is None && final(self).failure is None,
            old(self).stage is QueryDirectory ==> (report matches StepReport::SucceededWithDir {
                dir,
            } ==> (final(self).confirmed_dir matches Some(d) && d@ == dir@)),
            (old(self).stage is QueryDirectory && report is Succeeded) ==> (
            final(self).confirmed_dir matches Some(d) && d@ == old(self).path@),
    {
        if self.stage == InitStage::Complete || self.stage == InitStage::Failed {
            return ;
        }
        match report {
            StepReport::Failed { message } => {
                let error = match self.stage {
                    InitStage::BuildNodeClient | InitStage::InstantiateWallet => {
                        WalletError::Construction(message)
                    }
                    _ => WalletError::Lifecycle(message),
                };
                self.failure = Some(error);
                self.stage = InitStage::Failed;
            }
            StepReport::Succeeded => {
                self.step_forward(None);
            }
            StepReport::SucceededWithDir { dir } => {
                self.step_forward(Some(dir));
            }
        }
    }

    /// Moves one stage forward after a success, confirming the reported
    /// directory (or the resolved path) when the final step is the one
    /// that succeeded.
    fn step_forward(&mut self, dir: Option<String>)
        requires
            old(self).wf(),
            old(self).is_active(),
        ensures
            final(self).wf(),
            final(self).stage == next_stage_spec(old(self).stage),
            final(self).chain_type == old(self).chain_type,
            final(self).path@ == old(self).path@,
            final(self).node_addr@ == old(self).node_addr@,
            final(self).password@ == old(self).password@,
            final(self).mnemonic_length == old(self).mnemonic_length,
            final(self).recovery_phrase == old(self).recovery_phrase,
            final(self).failure is None,
            !(old(self).stage is QueryDirectory) ==> final(self).confirmed_dir is None,
            old(self).stage is QueryDirectory ==> (dir matches Some(d) ==> (
            final(self).confirmed_dir matches Some(c) && c@ == d@)),
            (old(self).stage is QueryDirectory && dir is None) ==> (
            final(self).confirmed_dir matches Some(c) && c@ == old(self).path@),
    {
        match self.stage {
            InitStage::BuildNodeClient => {
                self.stage = InitStage::InstantiateWallet;
            }
            InitStage::InstantiateWallet => {
                self.stage = InitStage::BindDirectory;
            }
            InitStage::BindDirectory => {
                set_global_chain_type(as_external_chain(&self.chain_type));
                self.stage = InitStage::WriteConfigFile;
            }
            InitStage::WriteConfigFile => {
                self.stage = InitStage::CreateWallet;
            }
            InitStage::CreateWallet => {
                self.stage = InitStage::QueryDirectory;
            }
            InitStage::QueryDirectory => {
                let confirmed = match dir {
                    Some(d) => d,
                    None => self.path.clone(),
                };
                self.confirmed_dir = Some(confirmed);
                self.stage = InitStage::Complete;
            }
            InitStage::Complete | InitStage::Failed => {}
        }
    }

    /// The workflow's result: nothing while a step is still owed, the
    /// confirmed top-level directory on completion, and the error it
    /// failed with otherwise.
    pub fn outcome(&self) -> (r: Option<Result<String, WalletError>>)
        requires
            self.wf(),
        ensures
            (r is Some) == !self.is_active(),
            self.stage is Complete ==> (r matches Some(Ok(d)) && d@ == self.confirmed_dir->Some_0@),
            self.stage is Failed ==> (r matches Some(Err(e)) && e.message_spec() == self.failure->Some_0.message_spec()
                && (e is Config <==> self.failure->Some_0 is Config)
                && (e is Construction <==> self.failure->Some_0 is Construction)
                && (e is Lifecycle <==> self.failure->Some_0 is Lifecycle)),
    {
        match self.stage {
            InitStage::Complete => {
                match &self.confirmed_dir {
                    Some(d) => Some(Ok(d.clone())),
                    None => vstd::pervasive::unreached(),
                }
            }
            InitStage::Failed => {
                match &self.failure {
                    Some(e) => Some(Err(e.duplicate())),
                    None => vstd::pervasive::unreached(),
                }
            }
            _ => None,
        }
    }
}

} // verus!

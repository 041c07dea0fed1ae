//! Account backups and the switch sequence: stop the target application,
//! clear its session keys, write a saved session back, and start it again.
use vstd::prelude::*;
use crate::snapshot::{count_text, has_key, lookup, EntryView, Snapshot};

verus! {

/// Key under which the target application keeps the session of the signed-in account.
pub const AGENT_STATE_KEY: &'static str = "jetskiStateSync.agentManagerInitState";

/// Key under which the target application keeps its authentication status.
pub const AUTH_STATUS_KEY: &'static str = "antigravityAuthStatus";

/// Key that tells the target application that its first-run screens were shown.
pub const ONBOARDING_KEY: &'static str = "antigravityOnboarding";

/// The value of `ONBOARDING_KEY` that skips the first-run screens.
pub const ONBOARDED_VALUE: &'static str = "true";

/// Extension of an account backup file.
pub const BACKUP_EXTENSION: &'static str = ".json";

/// Pause after stopping the target application and after writing its store.
pub const SETTLE_DELAY_MS: u64 = 1000;

/// Failures, by kind, each with a message for the user.
#[derive(PartialEq, Eq, Debug)]
pub enum AgentError {
    /// A store file, backup file, executable or process is absent.
    NotFound(String),
    /// Reading, writing or deleting a file failed otherwise.
    IoFailure(String),
    /// A value expected to be well formed could not be decoded.
    DecodeFailure(String),
    /// A combination of values was rejected.
    ValidationFailure(String),
    /// Stopping or starting a process failed.
    ProcessControlFailure(String),
}

/// One write to the store.
pub enum StoreOp {
    Delete(String),
    Upsert(String, String),
}

/// A write to the store as text.
pub enum StoreOpView {
    Delete(Seq<char>),
    Upsert(Seq<char>, Seq<char>),
}

pub open spec fn op_view(op: StoreOp) -> StoreOpView {
    match op {
        StoreOp::Delete(k) => StoreOpView::Delete(k@),
        StoreOp::Upsert(k, v) => StoreOpView::Upsert(k@, v@),
    }
}

pub open spec fn ops_view(ops: Seq<StoreOp>) -> Seq<StoreOpView> {
    ops.map_values(|op: StoreOp| op_view(op))
}

/// The store, as a map from key to value, after one write.
pub open spec fn apply_op(m: Map<Seq<char>, Seq<char>>, op: StoreOpView) -> Map<Seq<char>, Seq<char>> {
    match op {
        StoreOpView::Delete(k) => m.remove(k),
        StoreOpView::Upsert(k, v) => m.insert(k, v),
    }
}

/// The store after a sequence of writes, in order.
pub open spec fn apply_ops(m: Map<Seq<char>, Seq<char>>, ops: Seq<StoreOpView>) -> Map<Seq<char>, Seq<char>>
    decreases ops.len(),
{
    if ops.len() == 0 {
        m
    } else {
        apply_op(apply_ops(m, ops.drop_last()), ops.last())
    }
}

/// The writes that sign the target application out: its session and its
/// authentication status go, and its first-run screens are marked as shown.
pub open spec fn clear_ops_spec() -> Seq<StoreOpView> {
    seq![
        StoreOpView::Delete(AGENT_STATE_KEY@),
        StoreOpView::Delete(AUTH_STATUS_KEY@),
        StoreOpView::Upsert(ONBOARDING_KEY@, ONBOARDED_VALUE@),
    ]
}

/// The writes that sign the target application out.
pub fn clear_ops() -> (r: Vec<StoreOp>)
    ensures
        ops_view(r@) == clear_ops_spec(),
{
    let r = vec![
        StoreOp::Delete(String::from_str(AGENT_STATE_KEY)),
        StoreOp::Delete(String::from_str(AUTH_STATUS_KEY)),
        StoreOp::Upsert(String::from_str(ONBOARDING_KEY), String::from_str(ONBOARDED_VALUE)),
    ];
    assert(ops_view(r@) =~= clear_ops_spec());
    r
}

/// The store of an image, as a map.
pub open spec fn image_map(s: Seq<EntryView>) -> Map<Seq<char>, Seq<char>> {
    Map::new(|k: Seq<char>| has_key(s, k), |k: Seq<char>| lookup(s, k).unwrap())
}

/// Performs one write on an image of the store; the number of rows it touched.
pub fn apply_store_op(store: &mut Snapshot, op: &StoreOp) -> (rows: usize)
    requires
        old(store).wf(),
    ensures
        final(store).wf(),
        image_map(final(store)@) == apply_op(image_map(old(store)@), op_view(*op)),
        rows == match op {
            StoreOp::Delete(k) => if has_key(old(store)@, k@) { 1usize } else { 0usize },
            StoreOp::Upsert(_, _) => 1usize,
        },
{
    let ghost before = store@;
    match op {
        StoreOp::Delete(k) => {
            let n = store.remove(k);
            assert(image_map(store@) =~= image_map(before).remove(k@)) by {
                assert forall|q: Seq<char>| #[trigger] has_key(store@, q) implies lookup(store@, q)
                    == lookup(before, q) && q != k@ by {}
                assert forall|q: Seq<char>| q != k@ && #[trigger] has_key(before, q) implies has_key(
                    store@,
                    q,
                ) by {
                    assert(lookup(store@, q) == lookup(before, q));
                }
            }
            n
        },
        StoreOp::Upsert(k, v) => {
            store.set(k.clone(), v.clone());
            assert(image_map(store@) =~= image_map(before).insert(k@, v@)) by {
                assert forall|q: Seq<char>| q != k@ implies #[trigger] has_key(store@, q) == has_key(
                    before,
                    q,
                ) by {
                    assert(lookup(store@, q) == lookup(before, q));
                }
            }
            1
        },
    }
}

/// Rows that one write touches on a store: a delete touches the row it
/// removes, if any; an upsert touches one.
pub open spec fn op_rows(m: Map<Seq<char>, Seq<char>>, op: StoreOpView) -> nat {
    match op {
        StoreOpView::Delete(k) => if m.contains_key(k) {
            1
        } else {
            0
        },
        StoreOpView::Upsert(_, _) => 1,
    }
}

/// Rows that a sequence of writes touches, in order.
pub open spec fn ops_rows(m: Map<Seq<char>, Seq<char>>, ops: Seq<StoreOpView>) -> nat
    decreases ops.len(),
{
    if ops.len() == 0 {
        0
    } else {
        ops_rows(m, ops.drop_last()) + op_rows(apply_ops(m, ops.drop_last()), ops.last())
    }
}

/// Performs writes on an image of the store, in order; the rows they touched.
pub fn apply_store_ops(store: &mut Snapshot, ops: &Vec<StoreOp>) -> (rows: usize)
    requires
        old(store).wf(),
        ops@.len() < usize::MAX,
    ensures
        final(store).wf(),
        image_map(final(store)@) == apply_ops(image_map(old(store)@), ops_view(ops@)),
        rows == ops_rows(image_map(old(store)@), ops_view(ops@)),
{
    let ghost start = image_map(store@);
    let mut rows: usize = 0;
    let mut i: usize = 0;
    while i < ops.len()
        invariant
            i <= ops@.len(),
            store.wf(),
            rows <= i,
            rows == ops_rows(start, ops_view(ops@.subrange(0, i as int))),
            image_map(store@) == apply_ops(start, ops_view(ops@.subrange(0, i as int))),
        decreases ops@.len() - i,
    {
        let ghost before = store@;
        let n = apply_store_op(store, &ops[i]);
        assert(n == op_rows(image_map(before), op_view(ops@[i as int])));
        rows = rows + n;
        proof {
            let next = ops_view(ops@.subrange(0, i + 1));
            assert(next.drop_last() =~= ops_view(ops@.subrange(0, i as int)));
            assert(next.last() == op_view(ops@[i as int]));
        }
        i = i + 1;
    }
    assert(ops@.subrange(0, ops@.len() as int) =~= ops@);
    rows
}

/// Text of the outcome of a sign-out of the store.
pub open spec fn cleared_text(rows: nat, sibling_removed: bool) -> Seq<char> {
    "Logout successful: Main database cleaned "@ + crate::snapshot::decimal_text(rows) + " items"@
        + if sibling_removed {
        "; Backup database file deleted"@
    } else {
        Seq::empty()
    }
}

/// Reports a sign-out: the rows touched, and whether the store's backup file
/// beside it was removed.
pub fn cleared_message(rows: usize, sibling_removed: bool) -> (r: String)
    ensures
        r@ == cleared_text(rows as nat, sibling_removed),
{
    let mut m = String::from_str("Logout successful: Main database cleaned ");
    let n = count_text(rows);
    m.append(n.as_str());
    m.append(" items");
    if sibling_removed {
        m.append("; Backup database file deleted");
    }
    m
}

/// The session value that a backup document holds under a given key.
pub uninterp spec fn json_field_of(doc: Seq<char>, field: Seq<char>) -> Option<Seq<char>>;

/// Relies on serde_json: `from_str::<Value>`, then `Value::get` and
/// `Value::as_str`. `None` where the text is no JSON, has no such field, or the
/// field holds no string.
#[verifier::external_body]
pub(crate) fn json_string_field(doc: &str, field: &str) -> (r: Option<String>)
    ensures
        match r {
            Some(v) => json_field_of(doc@, field@) == Some(v@),
            None => json_field_of(doc@, field@).is_none(),
        },
{
    serde_json::from_str::<serde_json::Value>(doc).ok()?.get(field)?.as_str().map(String::from)
}

/// The backup document of one account: a one-field object.
pub uninterp spec fn backup_document_of(field: Seq<char>, value: Seq<char>) -> Seq<char>;

/// Relies on serde_json: a one-field object written by `to_string_pretty`.
/// The text depends on the field name and the value alone.
#[verifier::external_body]
fn backup_document_text(field: &str, value: &str) -> (r: String)
    ensures
        r@ == backup_document_of(field@, value@),
{
    let mut doc = serde_json::Map::new();
    doc.insert(field.to_string(), serde_json::Value::String(value.to_string()));
    serde_json::to_string_pretty(&serde_json::Value::Object(doc)).unwrap_or_default()
}

/// Name of the backup file of an account.
pub open spec fn backup_file_text(account: Seq<char>) -> Seq<char> {
    account + ".json"@
}

/// Name of the backup file of an account.
pub fn backup_file_name(account: &str) -> (r: String)
    ensures
        r@ == backup_file_text(account@),
{
    let mut r = String::from_str(account);
    r.append(BACKUP_EXTENSION);
    r
}

/// A backup about to be written: its file name and its text.
pub struct BackupFile {
    pub file_name: String,
    pub content: String,
}

/// The backup of the current session, named after the account's email address,
/// which the session value gives once decoded. The value is kept verbatim.
pub fn backup_for(email: &str, session: &str) -> (r: Result<BackupFile, AgentError>)
    ensures
        email@.len() == 0 ==> r is Err && r->Err_0 is DecodeFailure,
        email@.len() > 0 ==> r is Ok && r->Ok_0.file_name@ == backup_file_text(email@)
            && r->Ok_0.content@ == backup_document_of(AGENT_STATE_KEY@, session@),
{
    if email.unicode_len() == 0 {
        return Err(AgentError::DecodeFailure(String::from_str("session value: email field not found")));
    }
    Ok(
        BackupFile {
            file_name: backup_file_name(email),
            content: backup_document_text(AGENT_STATE_KEY, session),
        },
    )
}

/// What reading the backup file of an account gave: `Ok(None)` where there is
/// no such file.
pub type BackupRead = Result<Option<String>, String>;

/// The writes that restore an account from its backup file, or why there are
/// none.
pub open spec fn restore_plan_spec(read: BackupRead) -> Option<Seq<StoreOpView>> {
    match read {
        Ok(Some(doc)) => match json_field_of(doc@, AGENT_STATE_KEY@) {
            Some(v) => Some(seq![StoreOpView::Upsert(AGENT_STATE_KEY@, v)]),
            None => None,
        },
        _ => None,
    }
}

/// The writes that put an account's saved session back into the store: the
/// session value of its backup, verbatim. A missing backup is `NotFound`, an
/// unreadable one `IoFailure`, one without a session value `DecodeFailure`;
/// there are then no writes.
pub fn restore_plan(read: BackupRead) -> (r: Result<Vec<StoreOp>, AgentError>)
    ensures
        match r {
            Ok(ops) => restore_plan_spec(read) == Some(ops_view(ops@)),
            Err(e) => restore_plan_spec(read).is_none() && match read {
                Ok(None) => e is NotFound,
                Err(_) => e is IoFailure,
                Ok(Some(_)) => e is DecodeFailure,
            },
        },
{
    match read {
        Ok(Some(doc)) => match json_string_field(doc.as_str(), AGENT_STATE_KEY) {
            Some(v) => {
                let ops = vec![StoreOp::Upsert(String::from_str(AGENT_STATE_KEY), v)];
                assert(ops_view(ops@) =~= seq![StoreOpView::Upsert(AGENT_STATE_KEY@, v@)]);
                Ok(ops)
            },
            None => Err(
                AgentError::DecodeFailure(String::from_str("backup file holds no session value")),
            ),
        },
        Ok(None) => Err(AgentError::NotFound(String::from_str("no backup file for this account"))),
        Err(e) => Err(AgentError::IoFailure(e)),
    }
}

/// Restores an account from what reading its backup file gave: the writes that
/// put its session value back, and a report. Nothing is written on failure.
pub fn restore_antigravity_account(account_name: &str, read: BackupRead) -> (r: Result<
    (Vec<StoreOp>, String),
    AgentError,
>)
    ensures
        match r {
            Ok((ops, m)) => restore_plan_spec(read) == Some(ops_view(ops@)) && m@ == restored_text(
                account_name@,
            ),
            Err(e) => restore_plan_spec(read).is_none() && match read {
                Ok(None) => e is NotFound,
                Err(_) => e is IoFailure,
                Ok(Some(_)) => e is DecodeFailure,
            },
        },
{
    let ops = restore_plan(read)?;
    Ok((ops, String::from_str("Restored account ").concat(account_name)))
}

/// Whatever the store held before, the writes of a switch (the sign-out, then
/// the restore of a backup whose session value is `v`) leave the session key
/// holding `v`, no authentication status, and the first-run screens marked as
/// shown.
pub proof fn lemma_switch_store_effect(prior: Map<Seq<char>, Seq<char>>, backup: BackupRead, v: Seq<char>)
    requires
        backup matches Ok(Some(doc)) && json_field_of(doc@, AGENT_STATE_KEY@) == Some(v),
    ensures
        ({
            let m = apply_ops(apply_ops(prior, clear_ops_spec()), restore_plan_spec(backup).unwrap());
            &&& m.contains_key(AGENT_STATE_KEY@) && m[AGENT_STATE_KEY@] == v
            &&& !m.contains_key(AUTH_STATUS_KEY@)
            &&& m.contains_key(ONBOARDING_KEY@) && m[ONBOARDING_KEY@] == ONBOARDED_VALUE@
        }),
{
    reveal_strlit("jetskiStateSync.agentManagerInitState");
    reveal_strlit("antigravityAuthStatus");
    reveal_strlit("antigravityOnboarding");
    assert(AGENT_STATE_KEY@ != AUTH_STATUS_KEY@) by {
        assert(AGENT_STATE_KEY@.len() != AUTH_STATUS_KEY@.len());
    }
    assert(AGENT_STATE_KEY@ != ONBOARDING_KEY@) by {
        assert(AGENT_STATE_KEY@.len() != ONBOARDING_KEY@.len());
    }
    assert(AUTH_STATUS_KEY@ != ONBOARDING_KEY@) by {
        assert(AUTH_STATUS_KEY@[11] != ONBOARDING_KEY@[11]);
    }
    let c = clear_ops_spec();
    assert(c.drop_last().drop_last().drop_last() =~= Seq::<StoreOpView>::empty());
    assert(c.drop_last().drop_last() =~= seq![StoreOpView::Delete(AGENT_STATE_KEY@)]);
    assert(c.drop_last() =~= seq![
        StoreOpView::Delete(AGENT_STATE_KEY@),
        StoreOpView::Delete(AUTH_STATUS_KEY@),
    ]);
    assert(apply_ops(prior, c.drop_last().drop_last().drop_last()) == prior);
    assert(apply_ops(prior, c.drop_last().drop_last()) == prior.remove(AGENT_STATE_KEY@));
    assert(apply_ops(prior, c.drop_last()) == prior.remove(AGENT_STATE_KEY@).remove(
        AUTH_STATUS_KEY@,
    ));
    let m1 = apply_ops(prior, c);
    assert(m1 == prior.remove(AGENT_STATE_KEY@).remove(AUTH_STATUS_KEY@).insert(
        ONBOARDING_KEY@,
        ONBOARDED_VALUE@,
    ));
    let r = restore_plan_spec(backup).unwrap();
    assert(r == seq![StoreOpView::Upsert(AGENT_STATE_KEY@, v)]);
    assert(r.drop_last() =~= Seq::<StoreOpView>::empty());
    assert(r.last() == StoreOpView::Upsert(AGENT_STATE_KEY@, v));
    assert(apply_ops(m1, r.drop_last()) == m1);
    assert(apply_ops(m1, r) == m1.insert(AGENT_STATE_KEY@, v));
}

/// The message an error carries.
pub open spec fn error_text(e: AgentError) -> Seq<char> {
    match e {
        AgentError::NotFound(m) => m@,
        AgentError::IoFailure(m) => m@,
        AgentError::DecodeFailure(m) => m@,
        AgentError::ValidationFailure(m) => m@,
        AgentError::ProcessControlFailure(m) => m@,
    }
}

impl AgentError {
    /// The message this error carries.
    pub fn message(&self) -> (r: String)
        ensures
            r@ == error_text(*self),
    {
        match self {
            AgentError::NotFound(m) => m.clone(),
            AgentError::IoFailure(m) => m.clone(),
            AgentError::DecodeFailure(m) => m.clone(),
            AgentError::ValidationFailure(m) => m.clone(),
            AgentError::ProcessControlFailure(m) => m.clone(),
        }
    }
}

/// Text of the outcome of stopping the target application. Finding no process
/// is no failure; a failure to stop one is reported and the sequence goes on.
pub open spec fn kill_text(k: Result<String, AgentError>) -> Seq<char> {
    match k {
        Ok(m) => m@,
        Err(AgentError::NotFound(_)) => "Antigravity process not running"@,
        Err(e) => "Failed to kill Antigravity process: "@ + error_text(e),
    }
}

pub fn kill_message(k: &Result<String, AgentError>) -> (r: String)
    ensures
        r@ == kill_text(*k),
{
    match k {
        Ok(m) => m.clone(),
        Err(AgentError::NotFound(_)) => String::from_str("Antigravity process not running"),
        Err(e) => {
            let text = e.message();
            String::from_str("Failed to kill Antigravity process: ").concat(text.as_str())
        },
    }
}

/// Text of the outcome of starting the target application again.
pub open spec fn launch_text(l: Result<String, String>) -> Seq<char> {
    match l {
        Ok(m) => m@,
        Err(e) => "Failed to start: "@ + e@,
    }
}

pub fn launch_message(l: &Result<String, String>) -> (r: String)
    ensures
        r@ == launch_text(*l),
{
    match l {
        Ok(m) => m.clone(),
        Err(e) => String::from_str("Failed to start: ").concat(e.as_str()),
    }
}

/// Pause after stopping the target application before a fresh sign-in.
pub const SIGN_IN_STOP_DELAY_MS: u64 = 500;

/// Pause after signing the store out before starting the target application.
pub const SIGN_IN_CLEAR_DELAY_MS: u64 = 300;

/// What stopping the target application means for a fresh sign-in: finding
/// no process is fine; any other failure ends the sign-in.
pub open spec fn sign_in_kill_spec(k: Result<String, AgentError>) -> Result<Seq<char>, Seq<char>> {
    match k {
        Ok(m) => Ok(m@),
        Err(AgentError::NotFound(_)) => Ok("Antigravity process not running"@),
        Err(e) => Err("Error closing processes: "@ + error_text(e)),
    }
}

pub fn sign_in_kill_step(k: &Result<String, AgentError>) -> (r: Result<String, String>)
    ensures
        match (r, sign_in_kill_spec(*k)) {
            (Ok(a), Ok(b)) => a@ == b,
            (Err(a), Err(b)) => a@ == b,
            _ => false,
        },
{
    match k {
        Ok(m) => Ok(m.clone()),
        Err(AgentError::NotFound(_)) => Ok(String::from_str("Antigravity process not running")),
        Err(e) => {
            let text = e.message();
            Err(String::from_str("Error closing processes: ").concat(text.as_str()))
        },
    }
}

/// The report of a fresh sign-in: the stop, the backup of the account that
/// was signed in (if there was one), the sign-out, and the start.
pub open spec fn sign_in_text(kill: Seq<char>, backup: Option<Seq<char>>, start: Result<String, String>) -> Seq<char> {
    let started = match start {
        Ok(m) => m@,
        Err(e) => "Start failed: "@ + e@,
    };
    match backup {
        Some(b) => kill + " -> Backup completed: "@ + b + " -> Clearing data completed -> "@ + started,
        None => kill + " -> No login user detected (skipping backup) -> Clearing data completed -> "@
            + started,
    }
}

pub fn sign_in_message(kill: &str, backup: &Option<String>, start: &Result<String, String>) -> (r:
    String)
    ensures
        r@ == sign_in_text(
            kill@,
            match backup {
                Some(b) => Some(b@),
                None => None,
            },
            *start,
        ),
{
    let mut r = String::from_str(kill);
    match backup {
        Some(b) => {
            r.append(" -> Backup completed: ");
            r.append(b.as_str());
            r.append(" -> Clearing data completed -> ");
        },
        None => {
            r.append(" -> No login user detected (skipping backup) -> Clearing data completed -> ");
        },
    }
    match start {
        Ok(m) => r.append(m.as_str()),
        Err(e) => {
            r.append("Start failed: ");
            r.append(e.as_str());
        },
    }
    r
}

/// Text of a restored account.
pub open spec fn restored_text(account: Seq<char>) -> Seq<char> {
    "Restored account "@ + account
}

/// Where a switch stands.
#[derive(PartialEq, Eq, Structural, Clone, Copy, Debug)]
pub enum SwitchStep {
    Begin,
    StopProcess,
    SettleAfterStop,
    ClearStore,
    ReadBackup,
    WriteStore,
    SettleAfterWrite,
    Relaunch,
    Done,
}

/// What the caller reports back to the switch.
pub enum SwitchEvent {
    Start,
    /// Stopping the target application's processes gave this.
    Killed(Result<String, AgentError>),
    /// The requested pause is over.
    Waited,
    /// Signing the store out gave this (its message, or why it failed).
    Cleared(Result<String, AgentError>),
    /// Reading the account's backup file gave this.
    BackupLoaded(BackupRead),
    /// Writing the restored session gave this.
    StoreWritten(Result<(), String>),
    /// Starting the target application gave this.
    Launched(Result<String, String>),
}

/// What the caller does next.
pub enum SwitchAction {
    /// Stop every process of the target application.
    KillProcesses,
    /// Pause this many milliseconds.
    Wait(u64),
    /// Sign the store out with these writes, and remove the backup file beside
    /// the store where there is one (a failure there is no failure of the step).
    ClearStore(Vec<StoreOp>),
    /// Read this backup file of the accounts directory.
    ReadBackup(String),
    /// Perform these writes on the store.
    WriteStore(Vec<StoreOp>),
    /// Start the target application.
    Launch,
    /// The switch is over, with this result.
    Finish(Result<String, AgentError>),
    /// The event does not belong to the current step; nothing changed.
    Ignore,
}

/// The switch to one account: `Begin`, stop the target application, pause,
/// sign its store out, restore the account's session, pause, start it again.
/// Only a failure to sign out or to restore ends the sequence early; nothing
/// done before is undone.
pub struct AccountSwitch {
    account_name: String,
    step: SwitchStep,
    kill_report: String,
    restore_report: String,
}

impl AccountSwitch {
    pub closed spec fn account(&self) -> Seq<char> {
        self.account_name@
    }

    pub closed spec fn step_spec(&self) -> SwitchStep {
        self.step
    }

    /// What stopping the target application gave, as reported.
    pub closed spec fn kill_report_spec(&self) -> Seq<char> {
        self.kill_report@
    }

    /// What restoring the session gave, as reported.
    pub closed spec fn restore_report_spec(&self) -> Seq<char> {
        self.restore_report@
    }

    pub fn new(account_name: String) -> (r: AccountSwitch)
        ensures
            r.account() == account_name@,
            r.step_spec() == SwitchStep::Begin,
    {
        AccountSwitch {
            account_name,
            step: SwitchStep::Begin,
            kill_report: String::new(),
            restore_report: String::new(),
        }
    }

    pub fn step(&self) -> (r: SwitchStep)
        ensures
            r == self.step_spec(),
    {
        self.step
    }

    /// Takes the outcome of the last action and says what to do next.
    pub fn advance(&mut self, event: SwitchEvent) -> (r: SwitchAction)
        ensures
            final(self).account() == old(self).account(),
            match (old(self).step_spec(), event) {
                (SwitchStep::Begin, SwitchEvent::Start) => final(self).step_spec()
                    == SwitchStep::StopProcess && r is KillProcesses,
                (SwitchStep::StopProcess, SwitchEvent::Killed(k)) => final(self).step_spec()
                    == SwitchStep::SettleAfterStop && final(self).kill_report_spec() == kill_text(k)
                    && r == SwitchAction::Wait(SETTLE_DELAY_MS),
                (SwitchStep::SettleAfterStop, SwitchEvent::Waited) => final(self).step_spec()
                    == SwitchStep::ClearStore && final(self).kill_report_spec()
                    == old(self).kill_report_spec() && match r {
                    SwitchAction::ClearStore(ops) => ops_view(ops@) == clear_ops_spec(),
                    _ => false,
                },
                (SwitchStep::ClearStore, SwitchEvent::Cleared(Ok(_))) => final(self).step_spec()
                    == SwitchStep::ReadBackup && final(self).kill_report_spec()
                    == old(self).kill_report_spec() && match r {
                    SwitchAction::ReadBackup(f) => f@ == backup_file_text(old(self).account()),
                    _ => false,
                },
                (SwitchStep::ClearStore, SwitchEvent::Cleared(Err(e))) => final(self).step_spec()
                    == SwitchStep::Done && r == SwitchAction::Finish(Err(e)),
                (SwitchStep::ReadBackup, SwitchEvent::BackupLoaded(b)) => match restore_plan_spec(
                    b,
                ) {
                    Some(ops) => final(self).step_spec() == SwitchStep::WriteStore
                        && final(self).kill_report_spec() == old(self).kill_report_spec()
                        && match r {
                        SwitchAction::WriteStore(w) => ops_view(w@) == ops,
                        _ => false,
                    },
                    None => final(self).step_spec() == SwitchStep::Done && match r {
                        SwitchAction::Finish(Err(e)) => match b {
                            Ok(None) => e is NotFound,
                            Err(_) => e is IoFailure,
                            Ok(Some(_)) => e is DecodeFailure,
                        },
                        _ => false,
                    },
                },
                (SwitchStep::WriteStore, SwitchEvent::StoreWritten(Ok(_))) => final(self).step_spec()
                    == SwitchStep::SettleAfterWrite && final(self).kill_report_spec()
                    == old(self).kill_report_spec() && final(self).restore_report_spec()
                    == restored_text(old(self).account()) && r == SwitchAction::Wait(
                    SETTLE_DELAY_MS,
                ),
                (SwitchStep::WriteStore, SwitchEvent::StoreWritten(Err(e))) => final(self).step_spec() == SwitchStep::Done && match r {
                    SwitchAction::Finish(Err(AgentError::IoFailure(m))) => m@ == e@,
                    _ => false,
                },
                (SwitchStep::SettleAfterWrite, SwitchEvent::Waited) => final(self).step_spec()
                    == SwitchStep::Relaunch && final(self).kill_report_spec()
                    == old(self).kill_report_spec() && final(self).restore_report_spec()
                    == old(self).restore_report_spec() && r is Launch,
                (SwitchStep::Relaunch, SwitchEvent::Launched(l)) => final(self).step_spec()
                    == SwitchStep::Done && match r {
                    SwitchAction::Finish(Ok(m)) => m@ == old(self).kill_report_spec() + " -> "@
                        + old(self).restore_report_spec() + " -> "@ + launch_text(l),
                    _ => false,
                },
                _ => final(self).step_spec() == old(self).step_spec() && final(self).kill_report_spec() == old(self).kill_report_spec() && final(self).restore_report_spec() == old(self).restore_report_spec() && r is Ignore,
            },
    {
        match (self.step, event) {
            (SwitchStep::Begin, SwitchEvent::Start) => {
                self.step = SwitchStep::StopProcess;
                SwitchAction::KillProcesses
            },
            (SwitchStep::StopProcess, SwitchEvent::Killed(k)) => {
                self.kill_report = kill_message(&k);
                self.step = SwitchStep::SettleAfterStop;
                SwitchAction::Wait(SETTLE_DELAY_MS)
            },
            (SwitchStep::SettleAfterStop, SwitchEvent::Waited) => {
                self.step = SwitchStep::ClearStore;
                SwitchAction::ClearStore(clear_ops())
            },
            (SwitchStep::ClearStore, SwitchEvent::Cleared(c)) => match c {
                Ok(_) => {
                    self.step = SwitchStep::ReadBackup;
                    SwitchAction::ReadBackup(backup_file_name(self.account_name.as_str()))
                },
                Err(e) => {
                    self.step = SwitchStep::Done;
                    SwitchAction::Finish(Err(e))
                },
            },
            (SwitchStep::ReadBackup, SwitchEvent::BackupLoaded(b)) => match restore_plan(b) {
                Ok(ops) => {
                    self.step = SwitchStep::WriteStore;
                    SwitchAction::WriteStore(ops)
                },
                Err(e) => {
                    self.step = SwitchStep::Done;
                    SwitchAction::Finish(Err(e))
                },
            },
            (SwitchStep::WriteStore, SwitchEvent::StoreWritten(w)) => match w {
                Ok(_) => {
                    self.restore_report = String::from_str("Restored account ").concat(
                        self.account_name.as_str(),
                    );
                    self.step = SwitchStep::SettleAfterWrite;
                    SwitchAction::Wait(SETTLE_DELAY_MS)
                },
                Err(e) => {
                    self.step = SwitchStep::Done;
                    SwitchAction::Finish(Err(AgentError::IoFailure(e)))
                },
            },
            (SwitchStep::SettleAfterWrite, SwitchEvent::Waited) => {
                self.step = SwitchStep::Relaunch;
                SwitchAction::Launch
            },
            (SwitchStep::Relaunch, SwitchEvent::Launched(l)) => {
                let mut m = self.kill_report.clone();
                m.append(" -> ");
                m.append(self.restore_report.as_str());
                m.append(" -> ");
                let launched = launch_message(&l);
                m.append(launched.as_str());
                self.step = SwitchStep::Done;
                SwitchAction::Finish(Ok(m))
            },
            _ => SwitchAction::Ignore,
        }
    }
}

} // verus!

//! Decides every step of one external-tool invocation.
//!
//! The tool itself runs outside this crate; what stands here is the pure
//! half of the orchestration: preparing the in-memory profile for the
//! requested target database, assembling the argument vector, tagging
//! progress lines with their workflow channel, wrapping failures into the
//! caller-facing messages, and converting the final exit status into the
//! terminal outcome. An [`OrchestrationSession`] tracks one run and only
//! releases the outcome once the process has exited and both output
//! streams are fully drained, so success is never reported while output is
//! still in flight.

use vstd::prelude::*;
use vstd::string::StringExecFns;

use crate::connection_string::build_connection_string;
use crate::connection_string::built_connection_string;
use crate::connection_string::connection_segments;
use crate::connection_string::seg_views;
use crate::models::ExportRequest;
use crate::models::ImportRequest;
use crate::models::ImportWithDetailsRequest;
use crate::models::SqlConnection;
use crate::models::ToolInvocationOutcome;

verus! {

/// Which of the two workflows a run belongs to. Progress events carry a
/// channel derived from this, so subscribers can tell the flows apart.
#[derive(Clone, Copy, PartialEq, Eq, Structural, Debug)]
pub enum Workflow {
    Export,
    Import,
}

/// One progress line ready for delivery to the sink, tagged with the
/// workflow's channel.
pub struct ProgressEvent {
    pub channel: String,
    pub line: String,
}

/// The database name a profile stores, or the empty text when none is set.
pub open spec fn stored_database_text(p: SqlConnection) -> Seq<char> {
    if p.database_name is Some {
        p.database_name->0@
    } else {
        Seq::<char>::empty()
    }
}

/// `p` with its database name replaced.
pub open spec fn with_database(p: SqlConnection, db: String) -> SqlConnection {
    SqlConnection { database_name: Some(db), ..p }
}

/// The in-memory profile an export builds its connection string from: the
/// stored profile, with the database name overridden only when the
/// requested one differs from it.
pub open spec fn export_profile(p: SqlConnection, db: String) -> SqlConnection {
    if db@ == stored_database_text(p) {
        p
    } else {
        with_database(p, db)
    }
}

/// The event channel for each workflow.
pub open spec fn channel_text(w: Workflow) -> Seq<char> {
    match w {
        Workflow::Export => "export-progress"@,
        Workflow::Import => "import-progress"@,
    }
}

/// The fixed confirmation message of a successful run.
pub open spec fn success_text(w: Workflow) -> Seq<char> {
    match w {
        Workflow::Export => "Export completed successfully!"@,
        Workflow::Import => "Import completed successfully!"@,
    }
}

/// The decimal digit characters.
pub open spec fn dec_digit(d: int) -> char {
    if d == 0 {
        '0'
    } else if d == 1 {
        '1'
    } else if d == 2 {
        '2'
    } else if d == 3 {
        '3'
    } else if d == 4 {
        '4'
    } else if d == 5 {
        '5'
    } else if d == 6 {
        '6'
    } else if d == 7 {
        '7'
    } else if d == 8 {
        '8'
    } else {
        '9'
    }
}

/// The decimal rendering of a non-negative number, most significant digit
/// first, no leading zeros (a lone zero for zero itself).
pub open spec fn dec_rep(n: nat) -> Seq<char>
    decreases n,
{
    if n < 10 {
        seq![dec_digit(n as int)]
    } else {
        dec_rep(n / 10) + seq![dec_digit((n % 10) as int)]
    }
}

/// The decimal rendering of a signed number.
pub open spec fn int_text(n: int) -> Seq<char> {
    if n < 0 {
        seq!['-'] + dec_rep((-n) as nat)
    } else {
        dec_rep(n as nat)
    }
}

/// An optional exit code as a diagnostic renders it: `Some(<code>)`, or
/// `None` when the process was terminated without one.
pub open spec fn exit_code_text(code: Option<i32>) -> Seq<char> {
    if code is Some {
        "Some("@ + int_text(code->0 as int) + ")"@
    } else {
        "None"@
    }
}

/// The diagnostic message of a failed run.
pub open spec fn failure_text(w: Workflow, code: Option<i32>) -> Seq<char> {
    (match w {
        Workflow::Export => "Export failed with exit code: "@,
        Workflow::Import => "Import failed with exit code: "@,
    }) + exit_code_text(code)
}

/// How a terminal outcome must read for a given workflow and exit status:
/// exit code zero is the one success; everything else, a missing code
/// included, is a failure carrying that code.
pub open spec fn outcome_matches(w: Workflow, exit_code: Option<i32>, r: ToolInvocationOutcome) -> bool {
    if exit_code == Some(0i32) {
        &&& r matches ToolInvocationOutcome::Success { message }
        &&& message@ == success_text(w)
    } else {
        &&& r matches ToolInvocationOutcome::Failure { exit_code: c, message }
        &&& c == exit_code
        &&& message@ == failure_text(w, exit_code)
    }
}

/// The argument vector of an export run, in order.
pub open spec fn export_arguments(connection_string: Seq<char>, output_path: Seq<char>) -> Seq<
    Seq<char>,
> {
    seq![
        "/Action:Export"@,
        "/SourceConnectionString:"@ + connection_string,
        "/TargetFile:"@ + output_path,
    ]
}

/// The argument vector of an import run, in order.
pub open spec fn import_arguments(bacpac_path: Seq<char>, connection_string: Seq<char>) -> Seq<
    Seq<char>,
> {
    seq![
        "/Action:Import"@,
        "/SourceFile:"@ + bacpac_path,
        "/TargetConnectionString:"@ + connection_string,
    ]
}

fn clone_opt_string(o: &Option<String>) -> (r: Option<String>)
    ensures
        r == *o,
{
    match o {
        Some(s) => Some(s.clone()),
        None => None,
    }
}

/// The profile an export run works on: a copy of `profile` whose database
/// name is replaced by `database_name` only when the two differ (an equal
/// name leaves the stored value, `None` included, untouched). The stored
/// profile itself is never mutated.
pub fn prepare_export_profile(profile: &SqlConnection, database_name: &String) -> (r:
    SqlConnection)
    ensures
        r == export_profile(*profile, *database_name),
{
    let stored: String = match &profile.database_name {
        Some(d) => d.clone(),
        None => String::new(),
    };
    let differs = !database_name.eq(&stored);
    SqlConnection {
        id: profile.id,
        name: profile.name.clone(),
        server: profile.server.clone(),
        port: clone_opt_string(&profile.port),
        database_name: if differs {
            Some(database_name.clone())
        } else {
            clone_opt_string(&profile.database_name)
        },
        username: clone_opt_string(&profile.username),
        password: clone_opt_string(&profile.password),
        connection_string: clone_opt_string(&profile.connection_string),
        use_windows_auth: profile.use_windows_auth,
        trust_server_cert: profile.trust_server_cert,
        encrypt: profile.encrypt,
        created_at: clone_opt_string(&profile.created_at),
        updated_at: clone_opt_string(&profile.updated_at),
    }
}

/// The profile an import run works on: a copy of `profile` whose database
/// name is always the import's target database, whatever the profile
/// stored. The stored profile itself is never mutated.
pub fn prepare_import_profile(profile: &SqlConnection, target_database: &String) -> (r:
    SqlConnection)
    ensures
        r == with_database(*profile, *target_database),
{
    SqlConnection {
        id: profile.id,
        name: profile.name.clone(),
        server: profile.server.clone(),
        port: clone_opt_string(&profile.port),
        database_name: Some(target_database.clone()),
        username: clone_opt_string(&profile.username),
        password: clone_opt_string(&profile.password),
        connection_string: clone_opt_string(&profile.connection_string),
        use_windows_auth: profile.use_windows_auth,
        trust_server_cert: profile.trust_server_cert,
        encrypt: profile.encrypt,
        created_at: clone_opt_string(&profile.created_at),
        updated_at: clone_opt_string(&profile.updated_at),
    }
}

/// The ephemeral, unnamed profile an ad-hoc import builds from inline
/// caller-supplied fields: never persisted, no raw override, the target
/// database always set.
pub fn adhoc_import_profile(request: &ImportWithDetailsRequest) -> (r: SqlConnection)
    ensures
        r.id is None,
        r.name@ == "Temporary Import Connection"@,
        r.server == request.server,
        r.port == request.port,
        r.database_name == Some(request.target_database),
        r.username == request.username,
        r.password == request.password,
        r.connection_string is None,
        r.use_windows_auth == request.use_windows_auth,
        r.trust_server_cert == request.trust_server_cert,
        r.encrypt == request.encrypt,
        r.created_at is None,
        r.updated_at is None,
{
    SqlConnection {
        id: None,
        name: "Temporary Import Connection".to_owned(),
        server: request.server.clone(),
        port: clone_opt_string(&request.port),
        database_name: Some(request.target_database.clone()),
        username: clone_opt_string(&request.username),
        password: clone_opt_string(&request.password),
        connection_string: None,
        use_windows_auth: request.use_windows_auth,
        trust_server_cert: request.trust_server_cert,
        encrypt: request.encrypt,
        created_at: None,
        updated_at: None,
    }
}

/// The argument vector handed to the tool for an export: the action flag,
/// the source connection string, the target package file.
pub fn export_args(connection_string: &String, output_path: &String) -> (r: Vec<String>)
    ensures
        seg_views(r@) == export_arguments(connection_string@, output_path@),
{
    let mut args: Vec<String> = Vec::new();
    args.push("/Action:Export".to_owned());
    let mut source: String = "/SourceConnectionString:".to_owned();
    source.append(connection_string.as_str());
    args.push(source);
    let mut target: String = "/TargetFile:".to_owned();
    target.append(output_path.as_str());
    args.push(target);
    proof {
        assert(seg_views(args@) =~= export_arguments(connection_string@, output_path@));
    }
    args
}

/// The argument vector handed to the tool for an import: the action flag,
/// the source package file, the target connection string.
pub fn import_args(bacpac_path: &String, connection_string: &String) -> (r: Vec<String>)
    ensures
        seg_views(r@) == import_arguments(bacpac_path@, connection_string@),
{
    let mut args: Vec<String> = Vec::new();
    args.push("/Action:Import".to_owned());
    let mut source: String = "/SourceFile:".to_owned();
    source.append(bacpac_path.as_str());
    args.push(source);
    let mut target: String = "/TargetConnectionString:".to_owned();
    target.append(connection_string.as_str());
    args.push(target);
    proof {
        assert(seg_views(args@) =~= import_arguments(bacpac_path@, connection_string@));
    }
    args
}

/// An import run always reaches the caller's target database: whatever
/// database name the profile stored, the profile an import works on
/// carries a `Database=` segment spelling the requested name, directly
/// after the `Server=` segment. (A profile whose raw override string is
/// non-empty bypasses segment composition altogether; the override is
/// never inspected or adjusted.)
pub proof fn lemma_import_targets_requested_database(p: SqlConnection, db: String)
    requires
        db@.len() > 0,
    ensures
        connection_segments(with_database(p, db)).len() >= 2,
        connection_segments(with_database(p, db))[1] == "Database="@ + db@,
{
}

/// Everything of an export run that is decided before the tool starts:
/// the argument vector, computed from the stored profile with the
/// requested database name overriding the copy only when it differs. The
/// connection string is derived fresh from that copy; the stored profile
/// is untouched.
pub fn plan_export(profile: &SqlConnection, request: &ExportRequest) -> (r: Vec<String>)
    ensures
        seg_views(r@) == export_arguments(
            built_connection_string(export_profile(*profile, request.database_name)),
            request.output_path@,
        ),
{
    let prepared = prepare_export_profile(profile, &request.database_name);
    let connection_string = build_connection_string(&prepared);
    export_args(&connection_string, &request.output_path)
}

/// Everything of a stored-profile import run that is decided before the
/// tool starts: the argument vector, computed from the profile with the
/// database name always overridden by the import's target database.
pub fn plan_import(profile: &SqlConnection, request: &ImportRequest) -> (r: Vec<String>)
    ensures
        seg_views(r@) == import_arguments(
            request.bacpac_path@,
            built_connection_string(with_database(*profile, request.target_database)),
        ),
{
    let prepared = prepare_import_profile(profile, &request.target_database);
    let connection_string = build_connection_string(&prepared);
    import_args(&request.bacpac_path, &connection_string)
}

/// Everything of an ad-hoc import run that is decided before the tool
/// starts: the ephemeral profile built from the inline fields, and the
/// argument vector derived from it.
pub fn plan_import_adhoc(request: &ImportWithDetailsRequest) -> (r: (SqlConnection, Vec<String>))
    ensures
        r.0.id is None,
        r.0.name@ == "Temporary Import Connection"@,
        r.0.server == request.server,
        r.0.port == request.port,
        r.0.database_name == Some(request.target_database),
        r.0.username == request.username,
        r.0.password == request.password,
        r.0.connection_string is None,
        r.0.use_windows_auth == request.use_windows_auth,
        r.0.trust_server_cert == request.trust_server_cert,
        r.0.encrypt == request.encrypt,
        seg_views(r.1@) == import_arguments(
            request.bacpac_path@,
            built_connection_string(r.0),
        ),
{
    let profile = adhoc_import_profile(request);
    let connection_string = build_connection_string(&profile);
    let args = import_args(&request.bacpac_path, &connection_string);
    (profile, args)
}

/// The event channel for each workflow.
pub fn progress_channel(workflow: Workflow) -> (r: &'static str)
    ensures
        r@ == channel_text(workflow),
{
    match workflow {
        Workflow::Export => "export-progress",
        Workflow::Import => "import-progress",
    }
}

fn digit_str(d: u8) -> (r: &'static str)
    requires
        d < 10,
    ensures
        r@ == seq![dec_digit(d as int)],
{
    let s: &'static str = if d == 0 {
        "0"
    } else if d == 1 {
        "1"
    } else if d == 2 {
        "2"
    } else if d == 3 {
        "3"
    } else if d == 4 {
        "4"
    } else if d == 5 {
        "5"
    } else if d == 6 {
        "6"
    } else if d == 7 {
        "7"
    } else if d == 8 {
        "8"
    } else {
        "9"
    };
    proof {
        reveal_strlit("0");
        reveal_strlit("1");
        reveal_strlit("2");
        reveal_strlit("3");
        reveal_strlit("4");
        reveal_strlit("5");
        reveal_strlit("6");
        reveal_strlit("7");
        reveal_strlit("8");
        reveal_strlit("9");
        assert(s@ =~= seq![dec_digit(d as int)]);
    }
    s
}

fn push_u32_decimal(out: &mut String, n: u32)
    ensures
        final(out)@ == old(out)@ + dec_rep(n as nat),
    decreases n,
{
    if n >= 10 {
        push_u32_decimal(out, n / 10);
    }
    let d: u8 = (n % 10) as u8;
    out.append(digit_str(d));
    proof {
        if n >= 10 {
            assert(final(out)@ =~= old(out)@ + dec_rep(n as nat));
        } else {
            assert(n % 10 == n);
            assert(final(out)@ =~= old(out)@ + dec_rep(n as nat));
        }
    }
}

fn push_i32_decimal(out: &mut String, n: i32)
    ensures
        final(out)@ == old(out)@ + int_text(n as int),
{
    if n < 0 {
        out.append("-");
        let m: u32 = (-(n as i64)) as u32;
        push_u32_decimal(out, m);
        proof {
            reveal_strlit("-");
            assert("-"@ =~= seq!['-']);
            assert(final(out)@ =~= old(out)@ + int_text(n as int));
        }
    } else {
        push_u32_decimal(out, n as u32);
    }
}

fn exit_code_message_part(code: &Option<i32>) -> (r: String)
    ensures
        r@ == exit_code_text(*code),
{
    match code {
        None => "None".to_owned(),
        Some(n) => {
            let mut s: String = "Some(".to_owned();
            push_i32_decimal(&mut s, *n);
            s.append(")");
            proof {
                assert(s@ =~= exit_code_text(Some(*n)));
            }
            s
        },
    }
}

fn success_message(workflow: Workflow) -> (r: String)
    ensures
        r@ == success_text(workflow),
{
    match workflow {
        Workflow::Export => "Export completed successfully!".to_owned(),
        Workflow::Import => "Import completed successfully!".to_owned(),
    }
}

fn failure_message(workflow: Workflow, exit_code: &Option<i32>) -> (r: String)
    ensures
        r@ == failure_text(workflow, *exit_code),
{
    let mut s: String = match workflow {
        Workflow::Export => "Export failed with exit code: ".to_owned(),
        Workflow::Import => "Import failed with exit code: ".to_owned(),
    };
    let part = exit_code_message_part(exit_code);
    s.append(part.as_str());
    s
}

/// Converts the tool's final exit status into the terminal outcome: exit
/// code zero is the one success, any other code — or none, when the
/// process was terminated abnormally — is a failure carrying that code in
/// its diagnostic message.
pub fn completion_outcome(workflow: Workflow, exit_code: Option<i32>) -> (r: ToolInvocationOutcome)
    ensures
        outcome_matches(workflow, exit_code, r),
{
    let zero = match &exit_code {
        Some(c) => *c == 0i32,
        None => false,
    };
    if zero {
        ToolInvocationOutcome::Success { message: success_message(workflow) }
    } else {
        ToolInvocationOutcome::Failure {
            exit_code,
            message: failure_message(workflow, &exit_code),
        }
    }
}

impl ToolInvocationOutcome {
    /// The outcome as the caller-facing result: the confirmation message on
    /// success, the diagnostic message as the error otherwise.
    pub fn into_result(self) -> (r: Result<String, String>)
        ensures
            self matches ToolInvocationOutcome::Success { message } ==> r == Ok::<String, String>(
                message,
            ),
            self matches ToolInvocationOutcome::Failure { exit_code, message } ==> r == Err::<
                String,
                String,
            >(message),
    {
        match self {
            ToolInvocationOutcome::Success { message } => Ok(message),
            ToolInvocationOutcome::Failure { exit_code: _, message } => Err(message),
        }
    }
}

/// The failure reported when the referenced connection profile could not
/// be resolved.
pub fn resolution_error_message(detail: &String) -> (r: String)
    ensures
        r@ == "Failed to get connection: "@ + detail@,
{
    let mut s: String = "Failed to get connection: ".to_owned();
    s.append(detail.as_str());
    s
}

/// The failure reported when the operating system refused to start the
/// tool process.
pub fn spawn_error_message(detail: &String) -> (r: String)
    ensures
        r@ == "Failed to execute sqlpackage: "@ + detail@,
{
    let mut s: String = "Failed to execute sqlpackage: ".to_owned();
    s.append(detail.as_str());
    s
}

/// The failure reported when awaiting the tool's termination status
/// failed.
pub fn wait_error_message(detail: &String) -> (r: String)
    ensures
        r@ == "Failed to wait for sqlpackage: "@ + detail@,
{
    let mut s: String = "Failed to wait for sqlpackage: ".to_owned();
    s.append(detail.as_str());
    s
}

/// The failure reported when a handle to one of the child's output pipes
/// could not be obtained; a defensive check that should not fire under
/// normal operating-system behaviour.
pub fn stream_setup_error_message(stderr: bool) -> (r: String)
    ensures
        stderr ==> r@ == "Failed to get stderr"@,
        !stderr ==> r@ == "Failed to get stdout"@,
{
    if stderr {
        "Failed to get stderr".to_owned()
    } else {
        "Failed to get stdout".to_owned()
    }
}

/// One orchestrated run of the external tool, from spawn to terminal
/// outcome. The session does no I/O: the caller feeds it what it observed
/// — complete lines from either stream, each stream's end, the process's
/// exit status — and the session decides what follows. Its contract
/// enforces the ordering rule that the outcome exists only after the
/// process has exited and both streams are fully drained, so success is
/// never reported while output is still in flight.
pub struct OrchestrationSession {
    pub workflow: Workflow,
    pub stdout_open: bool,
    pub stderr_open: bool,
    pub exited: bool,
    pub exit_code: Option<i32>,
}

impl OrchestrationSession {
    /// A fresh session: both streams still open, the process still
    /// running.
    pub fn new(workflow: Workflow) -> (r: OrchestrationSession)
        ensures
            r.workflow == workflow,
            r.stdout_open,
            r.stderr_open,
            !r.exited,
    {
        OrchestrationSession {
            workflow,
            stdout_open: true,
            stderr_open: true,
            exited: false,
            exit_code: None,
        }
    }

    /// Turns one complete line read from either stream into the event the
    /// sink receives: the workflow's channel, the line verbatim. Lines of
    /// one stream are forwarded in the order they were read; the two
    /// streams are not ordered against each other.
    pub fn forward_line(&self, line: String) -> (r: ProgressEvent)
        ensures
            r.channel@ == channel_text(self.workflow),
            r.line == line,
    {
        ProgressEvent { channel: progress_channel(self.workflow).to_owned(), line }
    }

    /// Records that one stream reached end-of-stream and its draining task
    /// finished.
    pub fn stream_closed(&mut self, stderr: bool)
        ensures
            final(self).workflow == old(self).workflow,
            final(self).exited == old(self).exited,
            final(self).exit_code == old(self).exit_code,
            stderr ==> !final(self).stderr_open && final(self).stdout_open == old(
                self,
            ).stdout_open,
            !stderr ==> !final(self).stdout_open && final(self).stderr_open == old(
                self,
            ).stderr_open,
    {
        if stderr {
            self.stderr_open = false;
        } else {
            self.stdout_open = false;
        }
    }

    /// Records the process's termination status; `None` when it was
    /// terminated abnormally and no exit code exists.
    pub fn process_exited(&mut self, exit_code: Option<i32>)
        ensures
            *final(self) == (OrchestrationSession { exited: true, exit_code, ..*old(self) }),
    {
        self.exited = true;
        self.exit_code = exit_code;
    }

    /// The terminal outcome — exactly when the process has exited and both
    /// streams are drained, and `None` before then: no result is produced
    /// while output may still be in flight.
    pub fn try_finish(&self) -> (r: Option<ToolInvocationOutcome>)
        ensures
            r is Some <==> (self.exited && !self.stdout_open && !self.stderr_open),
            r is Some ==> outcome_matches(self.workflow, self.exit_code, r->0),
    {
        if self.exited && !self.stdout_open && !self.stderr_open {
            Some(completion_outcome(self.workflow, self.exit_code))
        } else {
            None
        }
    }
}

} // verus!

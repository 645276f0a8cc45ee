use vstd::prelude::*;

use crate::cli::Args;
use crate::enums::HttpVersion;
use crate::error::{headed, NgetError};
use crate::proxy_utils::ProxyConfig;
use crate::retry::RetryPolicy;
use crate::text::{decimal, decimal_text};

verus! {

/// One URL to fetch, with everything its download needs to know.
#[derive(Debug, Clone)]
pub struct DownloadTask {
    pub url: String,
    pub output_dir: String,
    pub output_file_name: Option<String>,
    pub http_version: HttpVersion,
    pub proxy: ProxyConfig,
    pub max_retries: u32,
    pub retry_delay_seconds: u64,
    pub verbose: bool,
    pub quiet: bool,
}

/// The number of retries that a setting asks for: the setting itself, and 0
/// where it is negative.
pub open spec fn retries_of(setting: i32) -> u32 {
    if setting < 0 {
        0
    } else {
        setting as u32
    }
}

impl DownloadTask {
    /// A task is never both verbose and quiet.
    pub open spec fn wf(&self) -> bool {
        !(self.verbose && self.quiet)
    }

    /// Whether the task is the one that `args` asks for with `url`.
    pub open spec fn is_for(&self, args: &Args, url: Seq<char>) -> bool {
        &&& self.url@ == url
        &&& self.output_dir@ == args.output_dir@
        &&& match (self.output_file_name, args.output_file_name) {
            (Some(mine), Some(given)) => mine@ == given@,
            (None, None) => true,
            _ => false,
        }
        &&& self.http_version == args.http_version
        &&& self.proxy.proxy_url@ == args.proxy_url@
        &&& self.proxy.proxy_user@ == args.proxy_user@
        &&& self.proxy.proxy_password@ == args.proxy_pass@
        &&& self.max_retries == retries_of(args.retries)
        &&& self.retry_delay_seconds == args.delay
        &&& self.verbose == args.verbose
        &&& self.quiet == args.quiet
    }

    /// The task's retry policy.
    pub fn policy(&self) -> (policy: RetryPolicy)
        ensures
            policy == (RetryPolicy {
                max_retries: self.max_retries,
                delay_seconds: self.retry_delay_seconds,
                verbose: self.verbose,
                quiet: self.quiet,
            }),
    {
        RetryPolicy {
            max_retries: self.max_retries,
            delay_seconds: self.retry_delay_seconds,
            verbose: self.verbose,
            quiet: self.quiet,
        }
    }
}

/// The task that `args` asks for with the URL at `index`.
fn task_for(args: &Args, index: usize) -> (task: DownloadTask)
    requires
        index < args.urls@.len(),
    ensures
        task.is_for(args, args.urls@[index as int]@),
{
    let output_file_name = match &args.output_file_name {
        Some(name) => Some(name.clone()),
        None => None,
    };
    let max_retries: u32 = if args.retries < 0 {
        0
    } else {
        args.retries as u32
    };
    DownloadTask {
        url: args.urls[index].clone(),
        output_dir: args.output_dir.clone(),
        output_file_name,
        http_version: args.http_version,
        proxy: ProxyConfig {
            proxy_url: args.proxy_url.clone(),
            proxy_user: args.proxy_user.clone(),
            proxy_password: args.proxy_pass.clone(),
        },
        max_retries,
        retry_delay_seconds: args.delay,
        verbose: args.verbose,
        quiet: args.quiet,
    }
}

/// Makes one task for each URL, in the order given, all with the shared
/// settings and each with a proxy configuration of its own. Settings that
/// are both verbose and quiet are refused with `ConfigurationError`.
pub fn plan_tasks(args: &Args) -> (r: Result<Vec<DownloadTask>, NgetError>)
    ensures
        args.verbose && args.quiet <==> r is Err,
        r matches Err(e) ==> e is ConfigurationError,
        r matches Ok(tasks) ==> {
            &&& tasks@.len() == args.urls@.len()
            &&& forall|i: int|
                0 <= i < tasks@.len() ==> (#[trigger] tasks@[i]).is_for(args, args.urls@[i]@)
                    && tasks@[i].wf()
        },
{
    if args.verbose && args.quiet {
        return Err(
            NgetError::ConfigurationError("verbose and quiet exclude each other".to_owned()),
        );
    }
    let mut tasks: Vec<DownloadTask> = Vec::new();
    let mut index: usize = 0;
    while index < args.urls.len()
        invariant
            index <= args.urls@.len(),
            !(args.verbose && args.quiet),
            tasks@.len() == index,
            forall|i: int|
                0 <= i < tasks@.len() ==> (#[trigger] tasks@[i]).is_for(args, args.urls@[i]@)
                    && tasks@[i].wf(),
        decreases args.urls@.len() - index,
    {
        let task = task_for(args, index);
        tasks.push(task);
        index += 1;
    }
    Ok(tasks)
}

/// How a task ended.
#[derive(Debug, Clone)]
pub enum TaskOutcome {
    /// The file was downloaded.
    Succeeded,
    /// The task gave up with this error.
    Failed(NgetError),
    /// The task's execution itself broke down; the text says how.
    Crashed(String),
}

/// The notice for the task at `index`, where it crashed.
pub open spec fn crash_notice_of(index: nat, outcome: TaskOutcome) -> Option<Seq<char>> {
    match outcome {
        TaskOutcome::Crashed(detail) => Some(
            "Task "@ + decimal(index) + " panicked: "@ + detail@,
        ),
        _ => None,
    }
}

/// The notice for the task at `index`: one line where its execution broke
/// down, nothing where it ran to an end of its own.
pub fn crash_notice(index: usize, outcome: &TaskOutcome) -> (notice: Option<String>)
    ensures
        match notice {
            Some(text) => crash_notice_of(index as nat, *outcome) == Some(text@),
            None => crash_notice_of(index as nat, *outcome) is None,
        },
{
    match outcome {
        TaskOutcome::Crashed(detail) => {
            let number = decimal_text(index as u64);
            let mut text = headed("Task ", number.as_str());
            text.append(" panicked: ");
            text.append(detail.as_str());
            Some(text)
        },
        _ => None,
    }
}

/// The notices for all tasks, one place for each: what is said of a task
/// depends on its own outcome and place, and on no other task.
pub fn crash_notices(outcomes: &Vec<TaskOutcome>) -> (notices: Vec<Option<String>>)
    ensures
        notices@.len() == outcomes@.len(),
        forall|i: int|
            0 <= i < outcomes@.len() ==> match #[trigger] notices@[i] {
                Some(text) => crash_notice_of(i as nat, outcomes@[i]) == Some(text@),
                None => crash_notice_of(i as nat, outcomes@[i]) is None,
            },
{
    let mut notices: Vec<Option<String>> = Vec::new();
    let mut index: usize = 0;
    while index < outcomes.len()
        invariant
            index <= outcomes@.len(),
            notices@.len() == index,
            forall|i: int|
                0 <= i < index ==> match #[trigger] notices@[i] {
                    Some(text) => crash_notice_of(i as nat, outcomes@[i]) == Some(text@),
                    None => crash_notice_of(i as nat, outcomes@[i]) is None,
                },
        decreases outcomes@.len() - index,
    {
        let notice = crash_notice(index, &outcomes[index]);
        notices.push(notice);
        index += 1;
    }
    notices
}

} // verus!

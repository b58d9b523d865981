//! Short status labels: the MCP server summary on the zero state, and the
//! header of a plan (document) tool call.
use vstd::prelude::*;
use crate::text::{decimal, push_chars, push_decimal};

verus! {

/// Whether the MCP configuration could be read.
#[derive(Clone, Copy, Debug, PartialEq, Eq, Structural)]
pub enum TuiMcpConfigState {
    Invalid,
    Missing,
    Ready,
}

/// The state of one MCP server.
#[derive(Clone, Copy, Debug, PartialEq, Eq, Structural)]
pub enum TuiMcpServerStatus {
    Offline,
    Starting,
    Authenticating,
    Running,
    Stopping,
    Failed,
}

/// How many servers are in `status`.
pub open spec fn count_status(statuses: Seq<TuiMcpServerStatus>, status: TuiMcpServerStatus) -> nat
    decreases statuses.len(),
{
    if statuses.len() == 0 {
        0
    } else {
        count_status(statuses.drop_last(), status) + if statuses.last() == status {
            1nat
        } else {
            0nat
        }
    }
}

/// The status buckets in display order, with their labels.
pub open spec fn bucket(k: int) -> (TuiMcpServerStatus, Seq<char>) {
    if k == 0 {
        (TuiMcpServerStatus::Running, "connected"@)
    } else if k == 1 {
        (TuiMcpServerStatus::Starting, "starting"@)
    } else if k == 2 {
        (TuiMcpServerStatus::Authenticating, "needs auth"@)
    } else if k == 3 {
        (TuiMcpServerStatus::Stopping, "stopping"@)
    } else if k == 4 {
        (TuiMcpServerStatus::Failed, "failed"@)
    } else {
        (TuiMcpServerStatus::Offline, "offline"@)
    }
}

/// The non-empty buckets among the first `k`, each as `count label`.
pub open spec fn status_parts(statuses: Seq<TuiMcpServerStatus>, k: int) -> Seq<Seq<char>>
    decreases k,
{
    if k <= 0 {
        Seq::empty()
    } else {
        let rest = status_parts(statuses, k - 1);
        let (status, label) = bucket(k - 1);
        let n = count_status(statuses, status);
        if n > 0 {
            rest.push(decimal(n) + " "@ + label)
        } else {
            rest
        }
    }
}

/// `parts` joined with ` · `.
pub open spec fn joined(parts: Seq<Seq<char>>) -> Seq<char>
    decreases parts.len(),
{
    if parts.len() == 0 {
        Seq::empty()
    } else if parts.len() == 1 {
        parts[0]
    } else {
        joined(parts.drop_last()) + " · "@ + parts.last()
    }
}

/// The MCP line of the zero state and whether it signals an error.
pub open spec fn spec_mcp_status_label(
    config_state: TuiMcpConfigState,
    statuses: Seq<TuiMcpServerStatus>,
) -> (Seq<char>, bool) {
    match config_state {
        TuiMcpConfigState::Invalid => ("Config error · run /mcp"@, true),
        TuiMcpConfigState::Missing => ("Not configured · /mcp"@, false),
        TuiMcpConfigState::Ready => if statuses.len() == 0 {
            ("No servers configured · run /mcp"@, false)
        } else {
            (joined(status_parts(statuses, 6)) + " · /mcp"@, false)
        },
    }
}

fn count_in(statuses: &[TuiMcpServerStatus], status: TuiMcpServerStatus) -> (n: usize)
    ensures
        n == count_status(statuses@, status),
{
    let mut n: usize = 0;
    let mut i: usize = 0;
    while i < statuses.len()
        invariant
            i <= statuses@.len(),
            n == count_status(statuses@.take(i as int), status),
            n <= i,
        decreases statuses@.len() - i,
    {
        assert(statuses@.take(i + 1).drop_last() == statuses@.take(i as int));
        if statuses[i] == status {
            n = n + 1;
        }
        i = i + 1;
    }
    assert(statuses@.take(statuses@.len() as int) == statuses@);
    n
}

/// Summarizes MCP servers: a configuration problem, no configuration, no
/// servers, or the count in each state (connected, starting, needs auth,
/// stopping, failed, offline) that has any, joined with ` · `.
pub fn mcp_status_label(config_state: TuiMcpConfigState, statuses: &[TuiMcpServerStatus]) -> (label: (String, bool))
    ensures
        (label.0@, label.1) == spec_mcp_status_label(config_state, statuses@),
{
    let mut text = String::new();
    match config_state {
        TuiMcpConfigState::Invalid => {
            push_chars(&mut text, "Config error · run /mcp");
            return (text, true);
        },
        TuiMcpConfigState::Missing => {
            push_chars(&mut text, "Not configured · /mcp");
            return (text, false);
        },
        TuiMcpConfigState::Ready => {},
    }
    if statuses.len() == 0 {
        push_chars(&mut text, "No servers configured · run /mcp");
        return (text, false);
    }
    let mut k: usize = 0;
    let mut any = false;
    while k < 6
        invariant
            k <= 6,
            text@ == joined(status_parts(statuses@, k as int)),
            any == (status_parts(statuses@, k as int).len() > 0),
        decreases 6 - k,
    {
        let (status, label): (TuiMcpServerStatus, &str) = if k == 0 {
            (TuiMcpServerStatus::Running, "connected")
        } else if k == 1 {
            (TuiMcpServerStatus::Starting, "starting")
        } else if k == 2 {
            (TuiMcpServerStatus::Authenticating, "needs auth")
        } else if k == 3 {
            (TuiMcpServerStatus::Stopping, "stopping")
        } else if k == 4 {
            (TuiMcpServerStatus::Failed, "failed")
        } else {
            (TuiMcpServerStatus::Offline, "offline")
        };
        assert(bucket(k as int) == (status, label@));
        let n = count_in(statuses, status);
        if n > 0 {
            let ghost before = status_parts(statuses@, k as int);
            if any {
                push_chars(&mut text, " · ");
            }
            push_decimal(&mut text, n as u64);
            push_chars(&mut text, " ");
            push_chars(&mut text, label);
            proof {
                let part = decimal(n as nat) + " "@ + label@;
                let after = before.push(part);
                assert(after.drop_last() == before);
                if before.len() == 0 {
                    assert(joined(after) == after[0]);
                }
            }
            any = true;
        }
        k = k + 1;
    }
    push_chars(&mut text, " · /mcp");
    (text, false)
}

/// The display state of a tool call.
#[derive(Clone, Copy, Debug, PartialEq, Eq, Structural)]
pub enum ToolCallDisplayState {
    Constructing,
    Running,
    Pending,
    Blocked,
    Succeeded,
    Failed,
    Cancelled,
}

/// What a plan tool call's header names: the one document's title, or how
/// many documents there are.
pub fn document_subject(titles: &[String]) -> (subject: String)
    ensures
        subject@ == (if titles@.len() == 1 {
            titles@[0]@
        } else {
            decimal(titles@.len()) + " documents"@
        }),
{
    if titles.len() == 1 {
        return titles[0].clone();
    }
    let mut subject = String::new();
    push_decimal(&mut subject, titles.len() as u64);
    push_chars(&mut subject, " documents");
    subject
}

/// The header of a plan tool call: the verb for its state, followed by the
/// document subject while creating and once created.
pub open spec fn spec_plan_header_label(creates: bool, state: ToolCallDisplayState) -> (Seq<char>, bool) {
    if creates {
        match state {
            ToolCallDisplayState::Constructing | ToolCallDisplayState::Running => ("Creating "@, true),
            ToolCallDisplayState::Pending | ToolCallDisplayState::Blocked => ("Create plan"@, false),
            ToolCallDisplayState::Succeeded => ("Created "@, true),
            ToolCallDisplayState::Failed => ("Failed to create plan"@, false),
            ToolCallDisplayState::Cancelled => ("Create plan cancelled"@, false),
        }
    } else {
        match state {
            ToolCallDisplayState::Constructing | ToolCallDisplayState::Running => ("Updating plan"@, false),
            ToolCallDisplayState::Pending | ToolCallDisplayState::Blocked => ("Update plan"@, false),
            ToolCallDisplayState::Succeeded => ("Updated plan"@, false),
            ToolCallDisplayState::Failed => ("Failed to update plan"@, false),
            ToolCallDisplayState::Cancelled => ("Update plan cancelled"@, false),
        }
    }
}

/// The header for creating (`creates`) or editing plan documents in
/// `state`; the subject is attached where the label names the documents.
pub fn plan_header_label(creates: bool, state: ToolCallDisplayState, titles: &[String]) -> (header: (&'static str, Option<String>))
    ensures
        header.0@ == spec_plan_header_label(creates, state).0,
        spec_plan_header_label(creates, state).1 ==> (header.1 matches Some(s) && s@ == (
        if titles@.len() == 1 {
            titles@[0]@
        } else {
            decimal(titles@.len()) + " documents"@
        })),
        !spec_plan_header_label(creates, state).1 ==> header.1 is None,
{
    if creates {
        match state {
            ToolCallDisplayState::Constructing | ToolCallDisplayState::Running => (
                "Creating ",
                Some(document_subject(titles)),
            ),
            ToolCallDisplayState::Pending | ToolCallDisplayState::Blocked => ("Create plan", None),
            ToolCallDisplayState::Succeeded => ("Created ", Some(document_subject(titles))),
            ToolCallDisplayState::Failed => ("Failed to create plan", None),
            ToolCallDisplayState::Cancelled => ("Create plan cancelled", None),
        }
    } else {
        match state {
            ToolCallDisplayState::Constructing | ToolCallDisplayState::Running => ("Updating plan", None),
            ToolCallDisplayState::Pending | ToolCallDisplayState::Blocked => ("Update plan", None),
            ToolCallDisplayState::Succeeded => ("Updated plan", None),
            ToolCallDisplayState::Failed => ("Failed to update plan", None),
            ToolCallDisplayState::Cancelled => ("Update plan cancelled", None),
        }
    }
}


/// Every server is counted in exactly one state of the summary: the counts
/// of the six states add up to the number of servers.
pub proof fn law_mcp_summary_counts_every_server(statuses: Seq<TuiMcpServerStatus>)
    ensures
        count_status(statuses, TuiMcpServerStatus::Running) + count_status(
            statuses,
            TuiMcpServerStatus::Starting,
        ) + count_status(statuses, TuiMcpServerStatus::Authenticating) + count_status(
            statuses,
            TuiMcpServerStatus::Stopping,
        ) + count_status(statuses, TuiMcpServerStatus::Failed) + count_status(
            statuses,
            TuiMcpServerStatus::Offline,
        ) == statuses.len(),
    decreases statuses.len(),
{
    if statuses.len() > 0 {
        law_mcp_summary_counts_every_server(statuses.drop_last());
    }
}

} // verus!

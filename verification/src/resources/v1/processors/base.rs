//! Lifecycle status of processors and how each status is handled.

use crate::text::{
    ascii_lowercase, concat2, is_ascii_text, spec_to_lowercase, text_eq, to_lowercase,
};
use vstd::prelude::*;
use vstd::string::*;

verus! {

/// Lifecycle status of a processor.
#[derive(Debug, Clone, Copy, PartialEq, Eq, Structural)]
pub enum ProcessorStatus {
    Defined,
    Scaling,
    Pending,
    Running,
    Failed,
    Stopped,
    Invalid,
    Creating,
    Created,
}

/// Terminal statuses.
pub open spec fn spec_is_inactive(s: ProcessorStatus) -> bool {
    s == ProcessorStatus::Failed || s == ProcessorStatus::Stopped || s == ProcessorStatus::Invalid
}

/// Statuses in which the processor still has to be started.
pub open spec fn spec_needs_start(s: ProcessorStatus) -> bool {
    s == ProcessorStatus::Defined || s == ProcessorStatus::Scaling || s == ProcessorStatus::Pending
}

/// Statuses in which the processor has to be watched.
pub open spec fn spec_needs_watch(s: ProcessorStatus) -> bool {
    s == ProcessorStatus::Running || s == ProcessorStatus::Creating || s
        == ProcessorStatus::Created || s == ProcessorStatus::Scaling
}

/// The terminal statuses, in the order `inactive()` lists them.
pub open spec fn inactive_list() -> Seq<ProcessorStatus> {
    seq![ProcessorStatus::Failed, ProcessorStatus::Stopped, ProcessorStatus::Invalid]
}

/// The non-terminal statuses, in the order `active()` lists them.
pub open spec fn active_list() -> Seq<ProcessorStatus> {
    seq![
        ProcessorStatus::Defined,
        ProcessorStatus::Scaling,
        ProcessorStatus::Pending,
        ProcessorStatus::Running,
        ProcessorStatus::Creating,
        ProcessorStatus::Created,
    ]
}

/// Lowercase name of a status.
pub open spec fn status_text(s: ProcessorStatus) -> Seq<char> {
    match s {
        ProcessorStatus::Defined => "defined"@,
        ProcessorStatus::Scaling => "scaling"@,
        ProcessorStatus::Pending => "pending"@,
        ProcessorStatus::Running => "running"@,
        ProcessorStatus::Failed => "failed"@,
        ProcessorStatus::Stopped => "stopped"@,
        ProcessorStatus::Invalid => "invalid"@,
        ProcessorStatus::Creating => "creating"@,
        ProcessorStatus::Created => "created"@,
    }
}

/// The status a lowercased name stands for.  `invalid` is not among the
/// accepted names.
pub open spec fn status_from_lower(t: Seq<char>) -> Option<ProcessorStatus> {
    if t == "defined"@ {
        Some(ProcessorStatus::Defined)
    } else if t == "scaling"@ {
        Some(ProcessorStatus::Scaling)
    } else if t == "pending"@ {
        Some(ProcessorStatus::Pending)
    } else if t == "running"@ {
        Some(ProcessorStatus::Running)
    } else if t == "failed"@ {
        Some(ProcessorStatus::Failed)
    } else if t == "stopped"@ {
        Some(ProcessorStatus::Stopped)
    } else if t == "creating"@ {
        Some(ProcessorStatus::Creating)
    } else if t == "created"@ {
        Some(ProcessorStatus::Created)
    } else {
        None
    }
}

/// The status a text names, compared after lowercasing.
pub open spec fn spec_parse_status(t: Seq<char>) -> Option<ProcessorStatus> {
    status_from_lower(spec_to_lowercase(t))
}

impl ProcessorStatus {
    /// All statuses considered inactive (terminal).
    pub fn inactive() -> (r: Vec<Self>)
        ensures
            r@ == inactive_list(),
    {
        let r = vec![ProcessorStatus::Failed, ProcessorStatus::Stopped, ProcessorStatus::Invalid];
        proof {
            assert(r@ =~= inactive_list());
        }
        r
    }

    /// All statuses considered active (non-terminal).
    pub fn active() -> (r: Vec<Self>)
        ensures
            r@ == active_list(),
    {
        let r = vec![
            ProcessorStatus::Defined,
            ProcessorStatus::Scaling,
            ProcessorStatus::Pending,
            ProcessorStatus::Running,
            ProcessorStatus::Creating,
            ProcessorStatus::Created,
        ];
        proof {
            assert(r@ =~= active_list());
        }
        r
    }

    /// Whether the processor still has to be started.
    pub fn needs_start(&self) -> (b: bool)
        ensures
            b == spec_needs_start(*self),
    {
        match self {
            ProcessorStatus::Defined | ProcessorStatus::Scaling | ProcessorStatus::Pending => true,
            _ => false,
        }
    }

    /// Whether the processor has to be watched.
    pub fn needs_watch(&self) -> (b: bool)
        ensures
            b == spec_needs_watch(*self),
    {
        match self {
            ProcessorStatus::Running
            | ProcessorStatus::Creating
            | ProcessorStatus::Created
            | ProcessorStatus::Scaling => true,
            _ => false,
        }
    }

    /// Whether the status is terminal.
    pub fn is_inactive(&self) -> (b: bool)
        ensures
            b == spec_is_inactive(*self),
    {
        match self {
            ProcessorStatus::Failed | ProcessorStatus::Stopped | ProcessorStatus::Invalid => true,
            _ => false,
        }
    }

    /// Whether the status is not terminal.
    pub fn is_active(&self) -> (b: bool)
        ensures
            b == !spec_is_inactive(*self),
    {
        !self.is_inactive()
    }

    /// The lowercase name of the status, as displayed.
    pub fn to_string(&self) -> (r: String)
        ensures
            r@ == status_text(*self),
    {
        match self {
            ProcessorStatus::Defined => String::from_str("defined"),
            ProcessorStatus::Scaling => String::from_str("scaling"),
            ProcessorStatus::Pending => String::from_str("pending"),
            ProcessorStatus::Running => String::from_str("running"),
            ProcessorStatus::Failed => String::from_str("failed"),
            ProcessorStatus::Stopped => String::from_str("stopped"),
            ProcessorStatus::Invalid => String::from_str("invalid"),
            ProcessorStatus::Creating => String::from_str("creating"),
            ProcessorStatus::Created => String::from_str("created"),
        }
    }

    /// Reads a status name in any letter case; an unknown name is refused
    /// with `Unknown processor status: <name>`.
    pub fn from_str(s: &str) -> (r: Result<Self, String>)
        ensures
            match r {
                Ok(x) => spec_parse_status(s@) == Some(x),
                Err(e) => spec_parse_status(s@) is None && e@ == "Unknown processor status: "@
                    + s@,
            },
            is_ascii_text(s@) ==> spec_parse_status(s@) == status_from_lower(ascii_lowercase(s@)),
    {
        let lower = to_lowercase(s);
        let t = lower.as_str();
        if text_eq(t, "defined") {
            Ok(ProcessorStatus::Defined)
        } else if text_eq(t, "scaling") {
            Ok(ProcessorStatus::Scaling)
        } else if text_eq(t, "pending") {
            Ok(ProcessorStatus::Pending)
        } else if text_eq(t, "running") {
            Ok(ProcessorStatus::Running)
        } else if text_eq(t, "failed") {
            Ok(ProcessorStatus::Failed)
        } else if text_eq(t, "stopped") {
            Ok(ProcessorStatus::Stopped)
        } else if text_eq(t, "creating") {
            Ok(ProcessorStatus::Creating)
        } else if text_eq(t, "created") {
            Ok(ProcessorStatus::Created)
        } else {
            Err(concat2("Unknown processor status: ", s))
        }
    }
}

// ---------------------------------------------------------------------------
// Laws
// ---------------------------------------------------------------------------

/// Law: `inactive()` lists exactly the terminal statuses and `active()`
/// exactly the others, each once; together they cover every status.
pub proof fn law_status_lists_partition(s: ProcessorStatus)
    ensures
        inactive_list().contains(s) <==> spec_is_inactive(s),
        active_list().contains(s) <==> !spec_is_inactive(s),
        inactive_list().no_duplicates(),
        active_list().no_duplicates(),
{
    assert(inactive_list()[0] == ProcessorStatus::Failed);
    assert(inactive_list()[1] == ProcessorStatus::Stopped);
    assert(inactive_list()[2] == ProcessorStatus::Invalid);
    assert(active_list()[0] == ProcessorStatus::Defined);
    assert(active_list()[1] == ProcessorStatus::Scaling);
    assert(active_list()[2] == ProcessorStatus::Pending);
    assert(active_list()[3] == ProcessorStatus::Running);
    assert(active_list()[4] == ProcessorStatus::Creating);
    assert(active_list()[5] == ProcessorStatus::Created);
}

/// Law: a status that needs starting or watching is an active one.
pub proof fn law_work_only_on_active(s: ProcessorStatus)
    ensures
        spec_needs_start(s) ==> !spec_is_inactive(s),
        spec_needs_watch(s) ==> !spec_is_inactive(s),
{
}

/// Law: every active status still needs work, starting or watching; the
/// statuses that need watching are exactly the active ones the processor
/// reaches once it has been asked to run (`scaling`, `creating`, `created`,
/// `running`), and only `scaling` needs both.
pub proof fn law_active_statuses_need_work(s: ProcessorStatus)
    ensures
        spec_needs_start(s) || spec_needs_watch(s) <==> !spec_is_inactive(s),
        spec_needs_watch(s) <==> (status_text(s) == "scaling"@ || status_text(s) == "creating"@
            || status_text(s) == "created"@ || status_text(s) == "running"@),
        spec_needs_start(s) && spec_needs_watch(s) <==> s == ProcessorStatus::Scaling,
        spec_is_inactive(s) <==> (status_text(s) == "failed"@ || status_text(s) == "stopped"@
            || status_text(s) == "invalid"@),
        spec_needs_start(s) <==> (status_text(s) == "defined"@ || status_text(s) == "scaling"@
            || status_text(s) == "pending"@),
{
    reveal_strlit("defined");
    reveal_strlit("scaling");
    reveal_strlit("pending");
    reveal_strlit("running");
    reveal_strlit("failed");
    reveal_strlit("stopped");
    reveal_strlit("invalid");
    reveal_strlit("creating");
    reveal_strlit("created");
    assert("defined"@[0] == 'd' && "pending"@[0] == 'p' && "failed"@[0] == 'f' && "invalid"@[0]
        == 'i');
    assert("scaling"@[0] == 's' && "creating"@[0] == 'c' && "created"@[0] == 'c' && "running"@[0]
        == 'r');
    assert("stopped"@[1] == 't' && "scaling"@[1] == 'c');
}

/// Law: every status but `Invalid` is read back from its displayed name
/// (the names are ASCII, so lowercasing is the ASCII mapping, see
/// `from_str`); `invalid` is not an accepted name.
pub proof fn law_status_text_read_back(s: ProcessorStatus)
    ensures
        is_ascii_text(status_text(s)),
        s != ProcessorStatus::Invalid ==> status_from_lower(ascii_lowercase(status_text(s)))
            == Some(s),
        s == ProcessorStatus::Invalid ==> status_from_lower(ascii_lowercase(status_text(s)))
            is None,
{
    reveal_strlit("defined");
    reveal_strlit("scaling");
    reveal_strlit("pending");
    reveal_strlit("running");
    reveal_strlit("failed");
    reveal_strlit("stopped");
    reveal_strlit("invalid");
    reveal_strlit("creating");
    reveal_strlit("created");
    let t = status_text(s);
    assert(ascii_lowercase(t) =~= t);
    let names = seq![
        "defined"@,
        "scaling"@,
        "pending"@,
        "running"@,
        "failed"@,
        "stopped"@,
        "invalid"@,
        "creating"@,
        "created"@,
    ];
    assert forall|i: int, j: int| 0 <= i < j < 9 implies names[i] != names[j] by {
        if names[i] =~= names[j] {
            assert(names[i][0] == names[j][0]);
            assert(names[i].len() == names[j].len());
            assert(names[i][names[i].len() - 1] == names[j][names[j].len() - 1]);
            assert(names[i][2] == names[j][2]);
            assert(names[i][4] == names[j][4]);
        }
    }
    assert(names[0] == "defined"@);
    assert(names[1] == "scaling"@);
    assert(names[2] == "pending"@);
    assert(names[3] == "running"@);
    assert(names[4] == "failed"@);
    assert(names[5] == "stopped"@);
    assert(names[6] == "invalid"@);
    assert(names[7] == "creating"@);
    assert(names[8] == "created"@);
}

/// Law: reading a status ignores ASCII letter case: an ASCII name and its
/// lowercase form are read the same way.
pub proof fn law_status_read_ignores_case(t: Seq<char>)
    requires
        is_ascii_text(t),
    ensures
        is_ascii_text(ascii_lowercase(t)),
        status_from_lower(ascii_lowercase(ascii_lowercase(t))) == status_from_lower(
            ascii_lowercase(t),
        ),
{
    assert(ascii_lowercase(ascii_lowercase(t)) =~= ascii_lowercase(t));
}

} // verus!

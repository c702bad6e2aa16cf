use vstd::prelude::*;

verus! {

/// The background tasks of a connection.
#[derive(Debug, Clone, Copy, PartialEq, Eq, Structural)]
pub enum TaskKind {
    /// Reads frames from the transport.
    Reader,
    /// Republishes inbound messages to the presentation layer.
    Dispatcher,
    /// Sends liveness frames.
    Keepalive,
    /// Writes the outbound queue to the transport.
    Writer,
}

/// A registered task: its kind and the handle by which the runtime knows it.
#[derive(Debug, Clone, Copy, PartialEq, Eq, Structural)]
pub struct TaskEntry {
    pub kind: TaskKind,
    pub handle: u64,
}

#[derive(Debug, Clone, Copy, PartialEq, Eq, Structural)]
pub enum RegistryError {
    /// A task of this kind is already running.
    DuplicateTask,
}

/// The running tasks of one connection, at most one of each kind.
pub struct TaskRegistry {
    reader: Option<u64>,
    dispatcher: Option<u64>,
    keepalive: Option<u64>,
    writer: Option<u64>,
}

pub open spec fn slot_map(
    m: Map<TaskKind, u64>,
    kind: TaskKind,
    slot: Option<u64>,
) -> Map<TaskKind, u64> {
    match slot {
        Some(h) => m.insert(kind, h),
        None => m,
    }
}

/// The registered task of one kind, as a sequence of zero or one entries.
pub open spec fn entry_if_present(m: Map<TaskKind, u64>, kind: TaskKind) -> Seq<TaskEntry> {
    if m.contains_key(kind) {
        seq![TaskEntry { kind, handle: m[kind] }]
    } else {
        Seq::empty()
    }
}

/// The stop order: inbound-facing tasks first, then the periodic sender, the writer last.
pub open spec fn stop_sequence(m: Map<TaskKind, u64>) -> Seq<TaskEntry> {
    entry_if_present(m, TaskKind::Reader) + entry_if_present(m, TaskKind::Dispatcher)
        + entry_if_present(m, TaskKind::Keepalive) + entry_if_present(m, TaskKind::Writer)
}

impl View for TaskRegistry {
    type V = Map<TaskKind, u64>;

    closed spec fn view(&self) -> Map<TaskKind, u64> {
        slot_map(
            slot_map(
                slot_map(
                    slot_map(Map::empty(), TaskKind::Reader, self.reader),
                    TaskKind::Dispatcher,
                    self.dispatcher,
                ),
                TaskKind::Keepalive,
                self.keepalive,
            ),
            TaskKind::Writer,
            self.writer,
        )
    }
}

impl TaskRegistry {
    pub fn new() -> (r: TaskRegistry)
        ensures
            r@ == Map::<TaskKind, u64>::empty(),
    {
        TaskRegistry { reader: None, dispatcher: None, keepalive: None, writer: None }
    }

    pub fn is_empty(&self) -> (r: bool)
        ensures
            r == (self@ == Map::<TaskKind, u64>::empty()),
    {
        let r = self.reader.is_none() && self.dispatcher.is_none() && self.keepalive.is_none()
            && self.writer.is_none();
        if !r {
            assert(self@.contains_key(TaskKind::Reader) || self@.contains_key(TaskKind::Dispatcher)
                || self@.contains_key(TaskKind::Keepalive) || self@.contains_key(
                TaskKind::Writer,
            ));
        }
        r
    }

    /// Whether a task of this kind is registered.
    pub fn contains(&self, kind: TaskKind) -> (r: bool)
        ensures
            r == self@.contains_key(kind),
    {
        match kind {
            TaskKind::Reader => self.reader.is_some(),
            TaskKind::Dispatcher => self.dispatcher.is_some(),
            TaskKind::Keepalive => self.keepalive.is_some(),
            TaskKind::Writer => self.writer.is_some(),
        }
    }

    /// Records a started task; a second task of the same kind is refused.
    pub fn register(&mut self, kind: TaskKind, handle: u64) -> (r: Result<(), RegistryError>)
        ensures
            r is Err <==> old(self)@.contains_key(kind),
            r is Ok ==> final(self)@ == old(self)@.insert(kind, handle),
            r is Err ==> final(self)@ == old(self)@ && r == Err::<(), RegistryError>(
                RegistryError::DuplicateTask,
            ),
    {
        if self.contains(kind) {
            return Err(RegistryError::DuplicateTask);
        }
        match kind {
            TaskKind::Reader => self.reader = Some(handle),
            TaskKind::Dispatcher => self.dispatcher = Some(handle),
            TaskKind::Keepalive => self.keepalive = Some(handle),
            TaskKind::Writer => self.writer = Some(handle),
        }
        assert(self@ =~= old(self)@.insert(kind, handle));
        Ok(())
    }

    /// Empties the registry and hands back every task that was in it, in stop order.
    /// The caller then asks each one to stop and waits for it, whatever the others report.
    pub fn shutdown_all(&mut self) -> (order: Vec<TaskEntry>)
        ensures
            final(self)@ == Map::<TaskKind, u64>::empty(),
            order@ == stop_sequence(old(self)@),
            old(self)@ == Map::<TaskKind, u64>::empty() ==> order@.len() == 0,
    {
        let ghost before = self@;
        let mut order: Vec<TaskEntry> = Vec::new();
        if let Some(h) = self.reader {
            order.push(TaskEntry { kind: TaskKind::Reader, handle: h });
        }
        if let Some(h) = self.dispatcher {
            order.push(TaskEntry { kind: TaskKind::Dispatcher, handle: h });
        }
        if let Some(h) = self.keepalive {
            order.push(TaskEntry { kind: TaskKind::Keepalive, handle: h });
        }
        if let Some(h) = self.writer {
            order.push(TaskEntry { kind: TaskKind::Writer, handle: h });
        }
        self.reader = None;
        self.dispatcher = None;
        self.keepalive = None;
        self.writer = None;
        assert(order@ =~= stop_sequence(before));
        assert(self@ =~= Map::<TaskKind, u64>::empty());
        order
    }
}

/// The kinds whose stop reported failure, in stop order. `stopped[i]` is what stopping
/// `order[i]` reported.
pub fn collect_failures(order: &Vec<TaskEntry>, stopped: &Vec<bool>) -> (r: Vec<TaskKind>)
    requires
        order@.len() == stopped@.len(),
    ensures
        r@ == failures(order@, stopped@),
{
    let mut r: Vec<TaskKind> = Vec::new();
    let mut i: usize = 0;
    while i < order.len()
        invariant
            i <= order@.len(),
            order@.len() == stopped@.len(),
            r@ == failures(order@.take(i as int), stopped@.take(i as int)),
        decreases order@.len() - i,
    {
        assert(order@.take(i + 1).drop_last() =~= order@.take(i as int));
        assert(stopped@.take(i + 1).drop_last() =~= stopped@.take(i as int));
        if !stopped[i] {
            r.push(order[i].kind);
        }
        i = i + 1;
    }
    assert(order@.take(order@.len() as int) =~= order@);
    assert(stopped@.take(stopped@.len() as int) =~= stopped@);
    r
}

pub open spec fn failures(order: Seq<TaskEntry>, stopped: Seq<bool>) -> Seq<TaskKind>
    decreases order.len(),
{
    if order.len() == 0 || stopped.len() == 0 {
        Seq::empty()
    } else {
        let rest = failures(order.drop_last(), stopped.drop_last());
        if stopped.last() {
            rest
        } else {
            rest.push(order.last().kind)
        }
    }
}

} // verus!

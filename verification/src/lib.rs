//! A small real-time rendering engine core: a generic handle-based component
//! storage, a per-frame rendering protocol with modelled command recording,
//! and the framework state (console commands, counters, timers) around it.

pub mod clock;
pub mod graphics;
pub mod input;
pub mod mesh;
pub mod widgets;

use vstd::prelude::*;
use core::marker::PhantomData;

verus! {

/// Error for operations the engine declares but does not support.
#[derive(Clone, Copy, PartialEq, Eq, Structural, Debug)]
pub enum EngineError {
    Unsupported,
}

/// Book-keeping reserved for slot removal. The current lifecycle never
/// removes slots, so nothing is ever stored here; a future removal scheme
/// would pair each slot with such an entry and bump `generation` on reuse.
#[allow(dead_code)]
struct RegisterInfo {
    data_index: u8,
    /// Counted when added and removed.
    generation: u8,
}

#[allow(dead_code)]
enum Register {
    Disabled(RegisterInfo),
    Enabled(RegisterInfo),
    Removed(RegisterInfo),
}

/// An opaque, copy-free reference to one slot of the `Storage<TComponent>`
/// that produced it. It carries only the slot index and a type tag; it does
/// not own the component and is never validated against a generation counter,
/// so it must only be used with the storage that handed it out.
pub struct Handle<TComponent> {
    index: usize,
    phantom: PhantomData<TComponent>,
}

impl<TComponent> View for Handle<TComponent> {
    type V = int;

    closed spec fn view(&self) -> int {
        self.index as int
    }
}

impl<TComponent> Handle<TComponent> {
    /// The slot index this handle refers to.
    pub fn index(&self) -> (i: usize)
        ensures
            i == self@,
    {
        self.index
    }
}

/// A generic arena that owns every live instance of a component type and
/// hands out `Handle`s to the slots. Slots are appended by `add` and are
/// never removed; `duplicate` shares a slot by bumping its reference count.
///
/// The abstract value (`self@`) is the sequence of stored components, in
/// insertion order; `self.usage()` is the parallel sequence of reference
/// counts, one per slot.
pub struct Storage<TComponent> {
    register: Vec<Register>,
    usage_count: Vec<u32>,
    datas: Vec<TComponent>,
}

impl<TComponent> View for Storage<TComponent> {
    type V = Seq<TComponent>;

    closed spec fn view(&self) -> Seq<TComponent> {
        self.datas@
    }
}

impl<TComponent> Storage<TComponent> {
    /// Reference count of each slot, parallel to `self@`.
    pub closed spec fn usage(&self) -> Seq<u32> {
        self.usage_count@
    }

    /// The storage invariant: one reference count per slot.
    pub open spec fn wf(&self) -> bool {
        self.usage().len() == self@.len()
    }

    pub fn new() -> (storage: Storage<TComponent>)
        ensures
            storage.wf(),
            storage@ == Seq::<TComponent>::empty(),
            storage.usage() == Seq::<u32>::empty(),
    {
        Storage { register: Vec::new(), datas: Vec::new(), usage_count: Vec::new() }
    }

    /// Appends `data` as a fresh slot with reference count one and returns a
    /// handle to it. The returned index equals the storage length before the
    /// call, so handles from successive `add` calls carry strictly
    /// increasing, unique indices.
    pub fn add(&mut self, data: TComponent) -> (handle: Handle<TComponent>)
        requires
            old(self).wf(),
        ensures
            final(self).wf(),
            final(self)@ == old(self)@.push(data),
            final(self).usage() == old(self).usage().push(1u32),
            handle@ == old(self)@.len(),
    {
        self.datas.push(data);
        self.usage_count.push(1);
        Handle { index: self.datas.len() - 1, phantom: PhantomData }
    }

    /// Increments the reference count of the slot `handle` points at and
    /// returns a second handle to the same slot. The component itself is not
    /// cloned: both handles alias one underlying value.
    pub fn duplicate(&mut self, handle: &Handle<TComponent>) -> (second: Handle<TComponent>)
        requires
            old(self).wf(),
            handle@ < old(self)@.len(),
            old(self).usage()[handle@] < u32::MAX,
        ensures
            final(self).wf(),
            final(self)@ == old(self)@,
            final(self).usage() == old(self).usage().update(handle@, (old(self).usage()[handle@] + 1) as u32),
            second@ == handle@,
    {
        let count = self.usage_count[handle.index];
        self.usage_count[handle.index] = count + 1;
        Handle { index: handle.index, phantom: PhantomData }
    }

    /// Slot removal is not part of the current lifecycle: every call reports
    /// the operation as unsupported and leaves the storage untouched.
    pub fn remove(&mut self, handle: Handle<TComponent>) -> (result: Result<(), EngineError>)
        ensures
            *final(self) == *old(self),
            result == Result::<(), EngineError>::Err(EngineError::Unsupported),
    {
        let _ = handle;
        Err(EngineError::Unsupported)
    }

    /// Shared access to the component in the slot `handle` points at.
    pub fn read(&self, handle: &Handle<TComponent>) -> (component: &TComponent)
        requires
            handle@ < self@.len(),
        ensures
            *component == self@[handle@],
    {
        &self.datas[handle.index]
    }

    /// Exclusive access: replaces the component in the slot `handle` points
    /// at. No other slot is affected.
    pub fn write(&mut self, handle: &Handle<TComponent>, data: TComponent)
        requires
            old(self).wf(),
            handle@ < old(self)@.len(),
        ensures
            final(self).wf(),
            final(self)@ == old(self)@.update(handle@, data),
            final(self).usage() == old(self).usage(),
    {
        self.datas[handle.index] = data;
    }

    /// How many handles share the slot `handle` points at.
    pub fn usage_of(&self, handle: &Handle<TComponent>) -> (count: u32)
        requires
            self.wf(),
            handle@ < self@.len(),
        ensures
            count == self.usage()[handle@],
    {
        self.usage_count[handle.index]
    }

    /// Shared access to the component in slot `index`.
    pub(crate) fn read_at(&self, index: usize) -> (component: &TComponent)
        requires
            index < self@.len(),
        ensures
            *component == self@[index as int],
    {
        &self.datas[index]
    }

    /// Exclusive access by slot index: replaces the component in slot
    /// `index`. No other slot is affected.
    pub(crate) fn write_at(&mut self, index: usize, data: TComponent)
        requires
            old(self).wf(),
            index < old(self)@.len(),
        ensures
            final(self).wf(),
            final(self)@ == old(self)@.update(index as int, data),
            final(self).usage() == old(self).usage(),
    {
        self.datas[index] = data;
    }

    /// Every live slot, in insertion order. The order is stable because
    /// slots are never removed.
    pub fn all(&self) -> (components: &Vec<TComponent>)
        ensures
            components@ == self@,
    {
        &self.datas
    }

    /// Number of live slots.
    pub fn len(&self) -> (n: usize)
        ensures
            n == self@.len(),
    {
        self.datas.len()
    }
}

/// The effect of `Storage::add`: what `post` and `handle` look like when
/// `add(value)` is called on `pre`.
pub open spec fn add_post<TComponent>(
    pre: Storage<TComponent>,
    value: TComponent,
    post: Storage<TComponent>,
    handle: Handle<TComponent>,
) -> bool {
    &&& post@ == pre@.push(value)
    &&& post.usage() == pre.usage().push(1u32)
    &&& handle@ == pre@.len()
}

/// The effect of `Storage::duplicate`: what `post` and `second` look like
/// when `duplicate(&handle)` is called on `pre`.
pub open spec fn duplicate_post<TComponent>(
    pre: Storage<TComponent>,
    handle: Handle<TComponent>,
    post: Storage<TComponent>,
    second: Handle<TComponent>,
) -> bool {
    &&& post@ == pre@
    &&& post.usage() == pre.usage().update(handle@, (pre.usage()[handle@] + 1) as u32)
    &&& second@ == handle@
}

/// The effect of `Storage::write`: what `post` looks like when
/// `write(&handle, value)` is called on `pre`.
pub open spec fn write_post<TComponent>(
    pre: Storage<TComponent>,
    handle: Handle<TComponent>,
    value: TComponent,
    post: Storage<TComponent>,
) -> bool {
    &&& post@ == pre@.update(handle@, value)
    &&& post.usage() == pre.usage()
}

/// Law: handles returned by successive `add` calls carry strictly increasing
/// indices, so every handle an `add` ever returns is unique.
pub proof fn lemma_add_indices_strictly_increase<TComponent>(
    s0: Storage<TComponent>,
    value1: TComponent,
    s1: Storage<TComponent>,
    handle1: Handle<TComponent>,
    value2: TComponent,
    s2: Storage<TComponent>,
    handle2: Handle<TComponent>,
)
    requires
        add_post(s0, value1, s1, handle1),
        add_post(s1, value2, s2, handle2),
    ensures
        handle1@ < handle2@,
        s2@[handle1@] == value1,
        s2@[handle2@] == value2,
{
}

/// Law: a read through a handle observes the exact value last written
/// through it, and a write to a different slot does not disturb it.
pub proof fn lemma_read_sees_last_write<TComponent>(
    s0: Storage<TComponent>,
    handle: Handle<TComponent>,
    value: TComponent,
    s1: Storage<TComponent>,
    other: Handle<TComponent>,
    other_value: TComponent,
    s2: Storage<TComponent>,
)
    requires
        handle@ < s0@.len(),
        other@ < s1@.len(),
        other@ != handle@,
        write_post(s0, handle, value, s1),
        write_post(s1, other, other_value, s2),
    ensures
        s1@[handle@] == value,
        s2@[handle@] == value,
{
}

/// Law: `duplicate(h)` returns a handle through which reads observe the same
/// underlying value as through `h`, and a write through either handle is
/// visible through the other: the two handles alias one slot.
pub proof fn lemma_duplicate_aliases<TComponent>(
    s0: Storage<TComponent>,
    handle: Handle<TComponent>,
    s1: Storage<TComponent>,
    second: Handle<TComponent>,
    value: TComponent,
    s2: Storage<TComponent>,
)
    requires
        handle@ < s0@.len(),
        duplicate_post(s0, handle, s1, second),
        write_post(s1, second, value, s2),
    ensures
        s1@[second@] == s1@[handle@],
        s2@[handle@] == value,
{
}

/// Law: a write through one handle has no effect on any other slot, so
/// writes through handles of different indices are independent of each
/// other.
pub proof fn lemma_write_isolated<TComponent>(
    s0: Storage<TComponent>,
    handle: Handle<TComponent>,
    value: TComponent,
    s1: Storage<TComponent>,
    unrelated: int,
)
    requires
        handle@ < s0@.len(),
        write_post(s0, handle, value, s1),
        0 <= unrelated < s0@.len(),
        unrelated != handle@,
    ensures
        s1@[unrelated] == s0@[unrelated],
        s1.usage()[unrelated] == s0.usage()[unrelated],
{
}

/// Compares two strings character by character.
pub(crate) fn str_eq(a: &str, b: &str) -> (equal: bool)
    ensures
        equal == (a@ == b@),
{
    let n = a.unicode_len();
    let m = b.unicode_len();
    if n != m {
        return false;
    }
    let mut i: usize = 0;
    while i < n
        invariant
            i <= n,
            n == a@.len(),
            n == b@.len(),
            forall|j: int| 0 <= j < i ==> a@[j] == b@[j],
        decreases n - i,
    {
        if a.get_char(i) != b.get_char(i) {
            return false;
        }
        i = i + 1;
    }
    proof {
        assert(a@ =~= b@);
    }
    true
}

/// Which mode a save-or-load request is in.
#[derive(Clone, Copy, Debug, PartialEq, Eq, Structural)]
pub enum SaveLoad {
    Idle,
    Load,
    Save,
}

/// The type of one console-command parameter. Parameter values are not
/// carried yet: parsing them is declared but unsupported.
#[derive(Clone, Copy, Debug, PartialEq, Eq, Structural)]
pub enum ConsoleCommandParameter {
    Bool,
    U32,
    F32,
}

/// A console command: a keyword and the types of its parameters.
pub struct ConsoleCommand {
    keyword: String,
    parameters: Vec<ConsoleCommandParameter>,
}

impl ConsoleCommand {
    pub closed spec fn spec_keyword(&self) -> Seq<char> {
        self.keyword@
    }

    pub closed spec fn spec_parameters(&self) -> Seq<ConsoleCommandParameter> {
        self.parameters@
    }

    pub fn new(keyword: &str, parameters: Vec<ConsoleCommandParameter>) -> (command: ConsoleCommand)
        ensures
            command.spec_keyword() == keyword@,
            command.spec_parameters() == parameters@,
    {
        ConsoleCommand { keyword: keyword.to_owned(), parameters }
    }

    pub(crate) fn cleared() -> (command: ConsoleCommand)
        ensures
            command.spec_keyword() == Seq::<char>::empty(),
            command.spec_parameters() == Seq::<ConsoleCommandParameter>::empty(),
    {
        ConsoleCommand { keyword: String::new(), parameters: Vec::new() }
    }

    /// The command's keyword.
    pub fn keyword(&self) -> (keyword: &str)
        ensures
            keyword@ == self.spec_keyword(),
    {
        self.keyword.as_str()
    }

    /// Reading a parameter value is declared but unsupported: every call
    /// reports that, whatever `index` is.
    pub fn get_bool(&self, index: usize) -> (result: Result<bool, EngineError>)
        ensures
            result == Result::<bool, EngineError>::Err(EngineError::Unsupported),
    {
        let _ = index;
        Err(EngineError::Unsupported)
    }
}

impl PartialEq for ConsoleCommand {
    /// Commands match on their keyword alone, except that the reserved
    /// keyword `info` matches nothing: comparing against it is used to probe
    /// which commands exist, not to run one.
    fn eq(&self, other: &Self) -> (equal: bool) {
        if str_eq(self.keyword.as_str(), "info") || str_eq(other.keyword.as_str(), "info") {
            false
        } else {
            self.keyword == other.keyword
        }
    }
}

impl vstd::std_specs::cmp::PartialEqSpecImpl for ConsoleCommand {
    open spec fn obeys_eq_spec() -> bool {
        true
    }

    open spec fn eq_spec(&self, other: &Self) -> bool {
        if self.spec_keyword() == "info"@ || other.spec_keyword() == "info"@ {
            false
        } else {
            self.spec_keyword() == other.spec_keyword()
        }
    }
}

/// A resolved location of an asset below the framework's import directory.
pub struct AssetPath(pub String);

/// Counts per second; for instance frames per second. Counting windows are
/// delimited by readings of the machine clock, so the contracts state what
/// holds whichever way a window boundary falls.
pub struct CPS {
    label: String,
    current: u32,
    per_second: std::time::Instant,
    counts: u32,
}

/// What holds of a `CPS` after its per-second window was refreshed: either
/// a second had passed, so the finished window's count was published and
/// the running count restarted, or nothing changed.
pub open spec fn refreshed_post(pre: CPS, post: CPS) -> bool {
    post.spec_label() == pre.spec_label() && {
        ||| (post.spec_current() == pre.spec_counts() && post.spec_counts() == 0)
        ||| (post.spec_current() == pre.spec_current() && post.spec_counts() == pre.spec_counts())
    }
}

/// What holds of a `CPS` after one `count` call: the running count grew by
/// one (saturating), either inside the old window or as the first count of
/// a fresh window that published the old running count.
pub open spec fn counted_post(pre: CPS, post: CPS) -> bool {
    post.spec_label() == pre.spec_label() && {
        ||| (post.spec_current() == pre.spec_counts() && post.spec_counts() == 1)
        ||| (post.spec_current() == pre.spec_current() && post.spec_counts() == if pre.spec_counts()
            < u32::MAX {
            (pre.spec_counts() + 1) as u32
        } else {
            u32::MAX
        })
    }
}

impl CPS {
    pub closed spec fn spec_label(&self) -> Seq<char> {
        self.label@
    }

    /// The rate published for the last finished one-second window.
    pub closed spec fn spec_current(&self) -> u32 {
        self.current
    }

    /// The running count inside the current one-second window.
    pub closed spec fn spec_counts(&self) -> u32 {
        self.counts
    }

    pub fn new(name: &str) -> (cps: CPS)
        ensures
            cps.spec_label() == name@,
            cps.spec_current() == 0,
            cps.spec_counts() == 0,
    {
        CPS { label: name.to_owned(), current: 0, per_second: clock::instant_now(), counts: 0 }
    }

    /// Publishes the finished window and restarts the running count when at
    /// least a second has passed since the window began.
    fn refresh_per_second(&mut self, print: bool)
        ensures
            refreshed_post(*old(self), *final(self)),
    {
        let _ = print;
        if clock::elapsed_seconds(&self.per_second) >= 1 {
            self.current = self.counts;
            self.counts = 0;
            self.per_second = clock::instant_now();
        }
    }

    /// Counts one event into the current window. `print` selects whether the
    /// caller wants the published rate echoed; the engine core leaves the
    /// echoing to its caller.
    pub fn count(&mut self, print: bool)
        ensures
            counted_post(*old(self), *final(self)),
    {
        self.refresh_per_second(print);
        if self.counts < u32::MAX {
            self.counts = self.counts + 1;
        }
    }

    /// The rate of the last finished window, refreshing the window first.
    pub fn current(&mut self) -> (rate: u32)
        ensures
            refreshed_post(*old(self), *final(self)),
            rate == final(self).spec_current(),
    {
        self.refresh_per_second(false);
        self.current
    }

    /// The label this counter reports under.
    pub fn label(&self) -> (label: &str)
        ensures
            label@ == self.spec_label(),
    {
        self.label.as_str()
    }
}

/// Count of frames rendered since startup or since the last clear.
pub struct Frames(u32);

impl View for Frames {
    type V = u32;

    closed spec fn view(&self) -> u32 {
        self.0
    }
}

impl Frames {
    pub fn new() -> (frames: Frames)
        ensures
            frames@ == 0,
    {
        Frames(0)
    }

    pub fn count(&mut self)
        requires
            old(self)@ < u32::MAX,
        ensures
            final(self)@ == old(self)@ + 1,
    {
        self.0 = self.0 + 1;
    }

    pub fn clear(&mut self)
        ensures
            final(self)@ == 0,
    {
        self.0 = 0;
    }

    pub fn frames(&self) -> (count: u32)
        ensures
            count == self@,
    {
        self.0
    }
}

/// A point in time to measure the current frame's duration from. The
/// reading is opaque; the elapsed time since it is read off by the caller.
pub struct Delta(std::time::Instant);

impl Delta {
    pub fn new() -> Delta {
        Delta(clock::instant_now())
    }

    /// Restarts the measurement at the present moment.
    pub fn reset(&mut self) {
        self.0 = clock::instant_now();
    }

    /// The moment the measurement started.
    pub fn instant(&self) -> &std::time::Instant {
        &self.0
    }
}

/// The keyword of a command line: everything before the first space, or the
/// whole line when it has no space.
pub open spec fn spec_keyword_of(line: Seq<char>) -> Seq<char>
    decreases line.len(),
{
    if line.len() == 0 {
        line
    } else if line[0] == ' ' {
        Seq::<char>::empty()
    } else {
        seq![line[0]] + spec_keyword_of(line.drop_first())
    }
}

proof fn lemma_keyword_of_prefix(line: Seq<char>, i: int)
    requires
        0 <= i <= line.len(),
        forall|j: int| 0 <= j < i ==> line[j] != ' ',
        i == line.len() || line[i] == ' ',
    ensures
        spec_keyword_of(line) == line.subrange(0, i),
    decreases line.len(),
{
    if line.len() == 0 {
        assert(spec_keyword_of(line) =~= line.subrange(0, i));
    } else if i == 0 {
        assert(line[0] == ' ');
        assert(spec_keyword_of(line) =~= line.subrange(0, 0));
    } else {
        assert(line[0] != ' ');
        lemma_keyword_of_prefix(line.drop_first(), i - 1);
        assert(spec_keyword_of(line) =~= line.subrange(0, i));
    }
}

/// The per-process framework state: the asset location, the per-frame
/// counters and timers, whether the main loop keeps running, and the
/// pending console command and save-or-load request.
pub struct Framework {
    asset_path: String,
    pub fps: CPS,
    pub frames: Frames,
    pub frame_delta: Delta,
    run: bool,
    command: ConsoleCommand,
    save_load: SaveLoad,
}

impl Framework {
    pub closed spec fn spec_run(&self) -> bool {
        self.run
    }

    pub closed spec fn spec_command(&self) -> ConsoleCommand {
        self.command
    }

    pub closed spec fn spec_save_load(&self) -> SaveLoad {
        self.save_load
    }

    pub closed spec fn spec_asset_path(&self) -> Seq<char> {
        self.asset_path@
    }

    pub closed spec fn spec_fps(&self) -> CPS {
        self.fps
    }

    pub closed spec fn spec_frames(&self) -> Frames {
        self.frames
    }

    pub closed spec fn spec_frame_delta(&self) -> Delta {
        self.frame_delta
    }

    /// A fresh framework around the given asset import directory: running,
    /// with no pending command and no pending save-or-load request.
    pub fn new(asset_path: String) -> (framework: Framework)
        ensures
            framework.spec_run(),
            framework.spec_command().spec_keyword() == Seq::<char>::empty(),
            framework.spec_command().spec_parameters() == Seq::<ConsoleCommandParameter>::empty(),
            framework.spec_save_load() == SaveLoad::Idle,
            framework.spec_asset_path() == asset_path@,
            framework.spec_frames()@ == 0,
            framework.spec_fps().spec_counts() == 0,
            framework.spec_fps().spec_current() == 0,
    {
        Framework {
            asset_path,
            fps: CPS::new("Frames Per Second"),
            frames: Frames::new(),
            frame_delta: Delta::new(),
            run: true,
            command: ConsoleCommand::cleared(),
            save_load: SaveLoad::Idle,
        }
    }

    /// Asks the main loop to stop after the current iteration.
    pub fn shutdown(&mut self)
        ensures
            !final(self).spec_run(),
            final(self).spec_command() == old(self).spec_command(),
            final(self).spec_save_load() == old(self).spec_save_load(),
            final(self).spec_asset_path() == old(self).spec_asset_path(),
            final(self).spec_fps() == old(self).spec_fps(),
            final(self).spec_frames() == old(self).spec_frames(),
            final(self).spec_frame_delta() == old(self).spec_frame_delta(),
    {
        self.run = false;
    }

    /// Whether the main loop should keep running.
    pub fn running(&self) -> (run: bool)
        ensures
            run == self.spec_run(),
    {
        self.run
    }

    /// Issues a console command: the keyword is everything up to the first
    /// space of `command`. Parameter values are not parsed yet, so the
    /// issued command carries none.
    pub fn command(&mut self, command: &str)
        ensures
            final(self).spec_command().spec_keyword() == spec_keyword_of(command@),
            final(self).spec_command().spec_parameters() == Seq::<ConsoleCommandParameter>::empty(),
            final(self).spec_run() == old(self).spec_run(),
            final(self).spec_save_load() == old(self).spec_save_load(),
            final(self).spec_asset_path() == old(self).spec_asset_path(),
            final(self).spec_fps() == old(self).spec_fps(),
            final(self).spec_frames() == old(self).spec_frames(),
            final(self).spec_frame_delta() == old(self).spec_frame_delta(),
    {
        let n = command.unicode_len();
        let mut i: usize = 0;
        while i < n && command.get_char(i) != ' '
            invariant
                i <= n,
                n == command@.len(),
                forall|j: int| 0 <= j < i ==> command@[j] != ' ',
            decreases n - i,
        {
            i = i + 1;
        }
        let keyword = command.substring_char(0, i);
        proof {
            lemma_keyword_of_prefix(command@, i as int);
        }
        self.command = ConsoleCommand::new(keyword, Vec::new());
    }

    /// The command issued last, for systems to match against.
    pub fn command_event(&self) -> (command: &ConsoleCommand)
        ensures
            *command == self.spec_command(),
    {
        &self.command
    }

    /// Marks the issued command as handled.
    pub fn command_clear(&mut self)
        ensures
            final(self).spec_command().spec_keyword() == Seq::<char>::empty(),
            final(self).spec_command().spec_parameters() == old(self).spec_command().spec_parameters(),
            final(self).spec_run() == old(self).spec_run(),
            final(self).spec_save_load() == old(self).spec_save_load(),
            final(self).spec_asset_path() == old(self).spec_asset_path(),
            final(self).spec_fps() == old(self).spec_fps(),
            final(self).spec_frames() == old(self).spec_frames(),
            final(self).spec_frame_delta() == old(self).spec_frame_delta(),
    {
        self.command.keyword = String::new();
    }

    /// Issues a save-or-load request.
    pub fn save_load(&mut self, mode: SaveLoad)
        ensures
            final(self).spec_save_load() == mode,
            final(self).spec_command() == old(self).spec_command(),
            final(self).spec_run() == old(self).spec_run(),
            final(self).spec_asset_path() == old(self).spec_asset_path(),
            final(self).spec_fps() == old(self).spec_fps(),
            final(self).spec_frames() == old(self).spec_frames(),
            final(self).spec_frame_delta() == old(self).spec_frame_delta(),
    {
        self.save_load = mode;
    }

    /// The pending save-or-load request.
    pub fn save_load_event(&self) -> (mode: &SaveLoad)
        ensures
            *mode == self.spec_save_load(),
    {
        &self.save_load
    }

    /// Resolves a logical asset name to its location below the framework's
    /// import directory.
    pub fn asset_path(&self, asset: &str) -> (path: AssetPath)
        ensures
            path.0@ == self.spec_asset_path() + "/"@ + asset@,
    {
        let mut full_path = self.asset_path.clone();
        full_path.append("/");
        full_path.append(asset);
        AssetPath(full_path)
    }
}

/// Target platform reported by the framework.
pub fn platform() -> (name: String)
    ensures
        name@ == "Linux x86_64"@,
{
    String::from_str("Linux x86_64")
}

} // verus!

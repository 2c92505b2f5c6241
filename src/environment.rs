use vstd::prelude::*;
use crate::value::{RuntimeError, Value, VariableScope};

verus! {

/// One scope frame: the index of its parent frame (none for the root) and
/// whether it is a function-level frame.
#[derive(Clone, Copy, Debug, PartialEq, Eq, Structural)]
pub struct Frame {
    pub parent: Option<usize>,
    pub function_scope: bool,
}

/// A frame as the contracts see it.
pub struct FrameModel {
    pub parent: Option<nat>,
    pub function_scope: bool,
}

impl View for Frame {
    type V = FrameModel;

    open spec fn view(&self) -> FrameModel {
        FrameModel {
            parent: match self.parent {
                Some(p) => Some(p as nat),
                None => None,
            },
            function_scope: self.function_scope,
        }
    }
}

/// A binding as the contracts see it.
pub struct BindingModel {
    pub name: Seq<char>,
    pub frame: nat,
    pub value: Value,
    pub mutable: bool,
    pub initialized: bool,
    pub deletable: bool,
}

/// The environment chain as the contracts see it: every frame ever created
/// (frames are never freed, so a captured binding stays readable), every
/// binding with the frame it belongs to, the current frame, and the bindings
/// captured so far.
pub struct EnvModel {
    pub frames: Seq<FrameModel>,
    pub bindings: Seq<BindingModel>,
    pub current: nat,
    pub captures: Seq<nat>,
}

/// A name bound in a frame, with its value, mutability and initialization state.
#[derive(Debug)]
pub struct Binding {
    name: String,
    frame: usize,
    value: Value,
    mutable: bool,
    initialized: bool,
    deletable: bool,
}

impl View for Binding {
    type V = BindingModel;

    closed spec fn view(&self) -> BindingModel {
        BindingModel {
            name: self.name@,
            frame: self.frame as nat,
            value: self.value,
            mutable: self.mutable,
            initialized: self.initialized,
            deletable: self.deletable,
        }
    }
}

/// The environment chain: an arena of frames linked to their parents, and the
/// frame that is current.
#[derive(Debug)]
pub struct Environment {
    frames: Vec<Frame>,
    bindings: Vec<Binding>,
    current: usize,
    captures: Vec<usize>,
}

impl View for Environment {
    type V = EnvModel;

    closed spec fn view(&self) -> EnvModel {
        EnvModel {
            frames: self.frames@.map_values(|f: Frame| f@),
            bindings: self.bindings@.map_values(|b: Binding| b@),
            current: self.current as nat,
            captures: self.captures@.map_values(|c: usize| c as nat),
        }
    }
}

impl EnvModel {
    /// Every parent index precedes its frame, the root frames are function
    /// frames, and every binding and capture points into the arena.
    pub open spec fn wf(self) -> bool {
        &&& 0 < self.frames.len()
        &&& self.current < self.frames.len()
        &&& forall|i: int|
            0 <= i < self.frames.len() ==> match #[trigger] self.frames[i].parent {
                Some(p) => p < i,
                None => self.frames[i].function_scope,
            }
        &&& forall|i: int|
            0 <= i < self.bindings.len() ==> #[trigger] self.bindings[i].frame < self.frames.len()
        &&& forall|i: int| 0 <= i < self.captures.len() ==> #[trigger] self.captures[i] < self.bindings.len()
    }

    /// The first binding at or after index `i` that belongs to frame `f` and is named `name`.
    pub open spec fn find_in_frame(self, f: nat, name: Seq<char>, i: nat) -> Option<nat>
        decreases self.bindings.len() - i,
    {
        if i >= self.bindings.len() {
            None
        } else if self.bindings[i as int].frame == f && self.bindings[i as int].name == name {
            Some(i)
        } else {
            self.find_in_frame(f, name, i + 1)
        }
    }

    /// The binding that `name` resolves to from frame `f`: the one in `f` itself,
    /// else the one its parent resolves to.
    pub open spec fn resolve_from(self, f: nat, name: Seq<char>) -> Option<nat>
        decreases f,
    {
        if f >= self.frames.len() {
            None
        } else {
            match self.find_in_frame(f, name, 0) {
                Some(i) => Some(i),
                None => match self.frames[f as int].parent {
                    Some(p) => if p < f {
                        self.resolve_from(p as nat, name)
                    } else {
                        None
                    },
                    None => None,
                },
            }
        }
    }

    /// The binding that `name` resolves to from the current frame.
    pub open spec fn resolve(self, name: Seq<char>) -> Option<nat> {
        self.resolve_from(self.current, name)
    }

    /// The nearest function-level frame at or above frame `f`.
    pub open spec fn function_frame_from(self, f: nat) -> nat
        decreases f,
    {
        if f < self.frames.len() && !self.frames[f as int].function_scope {
            match self.frames[f as int].parent {
                Some(p) => if p < f {
                    self.function_frame_from(p)
                } else {
                    f
                },
                None => f,
            }
        } else {
            f
        }
    }

    /// A new empty block frame whose parent is the current frame becomes current.
    pub open spec fn push(self) -> EnvModel {
        EnvModel {
            frames: self.frames.push(FrameModel { parent: Some(self.current), function_scope: false }),
            current: self.frames.len(),
            ..self
        }
    }

    /// The parent of the current frame becomes current.
    pub open spec fn pop(self) -> EnvModel {
        match self.frames[self.current as int].parent {
            Some(p) => EnvModel { current: p, ..self },
            None => self,
        }
    }

    /// Declares `name`, uninitialized, in the frame that `scope` selects.
    pub open spec fn create(
        self,
        name: Seq<char>,
        mutable: bool,
        deletable: bool,
        scope: VariableScope,
    ) -> Result<EnvModel, RuntimeError> {
        let target = match scope {
            VariableScope::Function => self.function_frame_from(self.current),
            VariableScope::Block => self.current,
        };
        if self.find_in_frame(target, name, 0).is_some() {
            Err(RuntimeError::Redeclaration)
        } else {
            Ok(
                EnvModel {
                    bindings: self.bindings.push(
                        BindingModel {
                            name,
                            frame: target,
                            value: Value::Undefined,
                            mutable,
                            initialized: false,
                            deletable,
                        },
                    ),
                    ..self
                },
            )
        }
    }

    /// The environment with binding `i` holding `value`, initialized.
    pub open spec fn store(self, i: nat, value: Value) -> EnvModel {
        EnvModel {
            bindings: self.bindings.update(
                i as int,
                BindingModel { value, initialized: true, ..self.bindings[i as int] },
            ),
            ..self
        }
    }

    /// Initializes the binding that `name` resolves to.
    pub open spec fn initialize(self, name: Seq<char>, value: Value) -> Result<EnvModel, RuntimeError> {
        match self.resolve(name) {
            None => Err(RuntimeError::Reference),
            Some(i) => Ok(self.store(i, value)),
        }
    }

    /// Assigns to the binding that `name` resolves to.
    pub open spec fn set_mutable(self, name: Seq<char>, value: Value) -> Result<EnvModel, RuntimeError> {
        match self.resolve(name) {
            None => Err(RuntimeError::Reference),
            Some(i) => if !self.bindings[i as int].initialized {
                Err(RuntimeError::Reference)
            } else if !self.bindings[i as int].mutable {
                Err(RuntimeError::ImmutableMutation)
            } else {
                Ok(self.store(i, value))
            },
        }
    }

    /// The value of the binding that `name` resolves to.
    pub open spec fn get_value(self, name: Seq<char>) -> Result<Value, RuntimeError> {
        match self.resolve(name) {
            Some(i) => if self.bindings[i as int].initialized {
                Ok(self.bindings[i as int].value)
            } else {
                Err(RuntimeError::Reference)
            },
            None => Err(RuntimeError::Reference),
        }
    }

    /// Records the binding that `name` resolves to, as a closure would.
    pub open spec fn capture(self, name: Seq<char>) -> Result<EnvModel, RuntimeError> {
        match self.resolve(name) {
            Some(i) => Ok(EnvModel { captures: self.captures.push(i), ..self }),
            None => Err(RuntimeError::Reference),
        }
    }

    /// The current values of the captured bindings, in the order of capture.
    pub open spec fn captured_values(self) -> Seq<Value> {
        self.captures.map_values(|c: nat| self.bindings[c as int].value)
    }

    /// `self` is `before` with frames only added, and no frame changed.
    pub open spec fn extends(self, before: EnvModel) -> bool {
        &&& before.frames.len() <= self.frames.len()
        &&& forall|i: int| 0 <= i < before.frames.len() ==> #[trigger] self.frames[i] == before.frames[i]
    }
}

impl Environment {
    /// An environment with one function-level root frame and no bindings.
    pub fn new() -> (r: Environment)
        ensures
            r@.wf(),
            r@.frames == seq![FrameModel { parent: None, function_scope: true }],
            r@.bindings.len() == 0,
            r@.current == 0,
            r@.captures.len() == 0,
    {
        let mut frames: Vec<Frame> = Vec::new();
        frames.push(Frame { parent: None, function_scope: true });
        let r = Environment { frames, bindings: Vec::new(), current: 0, captures: Vec::new() };
        assert(r@.frames =~= seq![FrameModel { parent: None, function_scope: true }]);
        r
    }

    /// The index of the current frame.
    pub fn current_frame(&self) -> (r: usize)
        ensures
            r == self@.current,
    {
        self.current
    }

    /// How many frames were ever created, the root included.
    pub fn frame_count(&self) -> (r: usize)
        ensures
            r == self@.frames.len(),
    {
        self.frames.len()
    }

    /// Pushes a new empty block frame whose parent is the current frame.
    pub fn push(&mut self)
        requires
            old(self)@.wf(),
        ensures
            final(self)@ == old(self)@.push(),
            final(self)@.wf(),
    {
        let frame = Frame { parent: Some(self.current), function_scope: false };
        self.frames.push(frame);
        self.current = self.frames.len() - 1;
        proof {
            assert(self@.frames =~= old(self)@.push().frames);
        }
    }

    /// Makes the parent of the current frame current again.
    pub fn pop(&mut self)
        requires
            old(self)@.wf(),
            old(self)@.frames[old(self)@.current as int].parent.is_some(),
        ensures
            final(self)@ == old(self)@.pop(),
            final(self)@.wf(),
    {
        let parent = self.frames[self.current].parent;
        match parent {
            Some(p) => {
                proof {
                    assert(old(self)@.frames[old(self)@.current as int].parent == Some(p as nat));
                }
                self.current = p;
                proof {
                    assert(self@.frames == old(self)@.frames);
                    assert(self@.bindings == old(self)@.bindings);
                    assert(self@.captures == old(self)@.captures);
                }
            },
            None => {},
        }
    }

    /// The first binding of frame `f` named `name`.
    fn find_in_frame(&self, f: usize, name: &String) -> (r: Option<usize>)
        requires
            self@.wf(),
        ensures
            match r {
                Some(i) => self@.find_in_frame(f as nat, name@, 0) == Some(i as nat) && i < self@.bindings.len(),
                None => self@.find_in_frame(f as nat, name@, 0) is None,
            },
    {
        let mut i: usize = 0;
        while i < self.bindings.len()
            invariant
                i <= self.bindings.len(),
                self@.find_in_frame(f as nat, name@, 0) == self@.find_in_frame(f as nat, name@, i as nat),
            decreases self.bindings.len() - i,
        {
            let b = &self.bindings[i];
            if b.frame == f && b.name == *name {
                return Some(i);
            }
            i = i + 1;
        }
        None
    }

    /// The binding that `name` resolves to from the current frame.
    fn resolve(&self, name: &String) -> (r: Option<usize>)
        requires
            self@.wf(),
        ensures
            match r {
                Some(i) => self@.resolve(name@) == Some(i as nat) && i < self@.bindings.len(),
                None => self@.resolve(name@) is None,
            },
    {
        let mut f: usize = self.current;
        loop
            invariant
                self@.wf(),
                f < self@.frames.len(),
                self@.resolve(name@) == self@.resolve_from(f as nat, name@),
            decreases f,
        {
            match self.find_in_frame(f, name) {
                Some(i) => {
                    return Some(i);
                },
                None => {},
            }
            let frame = self.frames[f];
            match frame.parent {
                Some(p) => {
                    proof {
                        assert(self@.frames[f as int].parent == Some(p as nat));
                    }
                    f = p;
                },
                None => {
                    return None;
                },
            }
        }
    }

    /// The nearest function-level frame at or above the current one.
    fn function_frame(&self) -> (r: usize)
        requires
            self@.wf(),
        ensures
            r == self@.function_frame_from(self@.current),
            r < self@.frames.len(),
    {
        let mut f: usize = self.current;
        loop
            invariant
                self@.wf(),
                f < self@.frames.len(),
                self@.function_frame_from(self@.current) == self@.function_frame_from(f as nat),
            decreases f,
        {
            let frame = self.frames[f];
            if frame.function_scope {
                return f;
            }
            match frame.parent {
                Some(p) => {
                    proof {
                        assert(self@.frames[f as int].parent == Some(p as nat));
                    }
                    f = p;
                },
                None => {
                    return f;
                },
            }
        }
    }

    /// Whether `name` resolves in the current frame or one of its ancestors.
    pub fn has_binding(&self, name: &String) -> (r: bool)
        requires
            self@.wf(),
        ensures
            r == self@.resolve(name@).is_some(),
    {
        self.resolve(name).is_some()
    }

    fn create_binding(&mut self, name: String, mutable: bool, deletable: bool, scope: VariableScope) -> (r: Result<(), RuntimeError>)
        requires
            old(self)@.wf(),
        ensures
            final(self)@.wf(),
            match old(self)@.create(name@, mutable, deletable, scope) {
                Ok(e) => r == Ok::<(), RuntimeError>(()) && final(self)@ == e,
                Err(err) => r == Err::<(), RuntimeError>(err) && final(self)@ == old(self)@,
            },
    {
        let target = match scope {
            VariableScope::Function => self.function_frame(),
            VariableScope::Block => self.current,
        };
        if self.find_in_frame(target, &name).is_some() {
            return Err(RuntimeError::Redeclaration);
        }
        let b = Binding { name, frame: target, value: Value::Undefined, mutable, initialized: false, deletable };
        self.bindings.push(b);
        proof {
            let e = old(self)@.create(b.name@, mutable, deletable, scope)->Ok_0;
            assert(self@.bindings =~= e.bindings);
            assert(self@.wf()) by {
                assert forall|i: int| 0 <= i < self@.bindings.len() implies #[trigger] self@.bindings[i].frame < self@.frames.len() by {
                    if i < old(self)@.bindings.len() {
                        assert(self@.bindings[i] == old(self)@.bindings[i]);
                    }
                }
            }
        }
        Ok(())
    }

    /// Declares `name` as a mutable, uninitialized binding in the frame that
    /// `scope` selects; fails if that frame already binds `name`.
    pub fn create_mutable_binding(&mut self, name: String, deletable: bool, scope: VariableScope) -> (r: Result<(), RuntimeError>)
        requires
            old(self)@.wf(),
        ensures
            final(self)@.wf(),
            match old(self)@.create(name@, true, deletable, scope) {
                Ok(e) => r == Ok::<(), RuntimeError>(()) && final(self)@ == e,
                Err(err) => r == Err::<(), RuntimeError>(err) && final(self)@ == old(self)@,
            },
    {
        self.create_binding(name, true, deletable, scope)
    }

    /// Declares `name` as an immutable, uninitialized binding in the frame that
    /// `scope` selects; fails if that frame already binds `name`.
    pub fn create_immutable_binding(&mut self, name: String, deletable: bool, scope: VariableScope) -> (r: Result<(), RuntimeError>)
        requires
            old(self)@.wf(),
        ensures
            final(self)@.wf(),
            match old(self)@.create(name@, false, deletable, scope) {
                Ok(e) => r == Ok::<(), RuntimeError>(()) && final(self)@ == e,
                Err(err) => r == Err::<(), RuntimeError>(err) && final(self)@ == old(self)@,
            },
    {
        self.create_binding(name, false, deletable, scope)
    }

    fn store(&mut self, i: usize, value: Value)
        requires
            old(self)@.wf(),
            i < old(self)@.bindings.len(),
        ensures
            final(self)@ == old(self)@.store(i as nat, value),
            final(self)@.wf(),
    {
        let old_b = &self.bindings[i];
        let b = Binding {
            name: old_b.name.clone(),
            frame: old_b.frame,
            value,
            mutable: old_b.mutable,
            initialized: true,
            deletable: old_b.deletable,
        };
        self.bindings.set(i, b);
        proof {
            assert(self@.bindings =~= old(self)@.store(i as nat, value).bindings);
        }
    }

    /// Initializes the binding that `name` resolves to with `value`; fails if
    /// `name` is not declared.
    pub fn initialize_binding(&mut self, name: &String, value: Value) -> (r: Result<(), RuntimeError>)
        requires
            old(self)@.wf(),
        ensures
            final(self)@.wf(),
            match old(self)@.initialize(name@, value) {
                Ok(e) => r == Ok::<(), RuntimeError>(()) && final(self)@ == e,
                Err(err) => r == Err::<(), RuntimeError>(err) && final(self)@ == old(self)@,
            },
    {
        match self.resolve(name) {
            None => Err(RuntimeError::Reference),
            Some(i) => {
                proof {
                    assert(self@.bindings[i as int] == self.bindings@[i as int]@);
                }
                self.store(i, value);
                Ok(())
            },
        }
    }

    /// Assigns `value` to the binding that `name` resolves to; fails if there
    /// is none, if it is not initialized, or if it is immutable.
    pub fn set_mutable_binding(&mut self, name: &String, value: Value) -> (r: Result<(), RuntimeError>)
        requires
            old(self)@.wf(),
        ensures
            final(self)@.wf(),
            match old(self)@.set_mutable(name@, value) {
                Ok(e) => r == Ok::<(), RuntimeError>(()) && final(self)@ == e,
                Err(err) => r == Err::<(), RuntimeError>(err) && final(self)@ == old(self)@,
            },
    {
        match self.resolve(name) {
            None => Err(RuntimeError::Reference),
            Some(i) => {
                proof {
                    assert(self@.bindings[i as int] == self.bindings@[i as int]@);
                }
                if !self.bindings[i].initialized {
                    Err(RuntimeError::Reference)
                } else if !self.bindings[i].mutable {
                    Err(RuntimeError::ImmutableMutation)
                } else {
                    self.store(i, value);
                    Ok(())
                }
            },
        }
    }

    /// The value of the binding that `name` resolves to; fails if there is
    /// none or if it is not initialized.
    pub fn get_binding_value(&self, name: &String) -> (r: Result<Value, RuntimeError>)
        requires
            self@.wf(),
        ensures
            r == self@.get_value(name@),
    {
        match self.resolve(name) {
            None => Err(RuntimeError::Reference),
            Some(i) => {
                proof {
                    assert(self@.bindings[i as int] == self.bindings@[i as int]@);
                }
                if self.bindings[i].initialized {
                    Ok(self.bindings[i].value)
                } else {
                    Err(RuntimeError::Reference)
                }
            },
        }
    }

    /// Records the binding that `name` resolves to now, as a closure created
    /// here would; fails if there is none.
    pub fn capture(&mut self, name: &String) -> (r: Result<(), RuntimeError>)
        requires
            old(self)@.wf(),
        ensures
            final(self)@.wf(),
            match old(self)@.capture(name@) {
                Ok(e) => r == Ok::<(), RuntimeError>(()) && final(self)@ == e,
                Err(err) => r == Err::<(), RuntimeError>(err) && final(self)@ == old(self)@,
            },
    {
        match self.resolve(name) {
            None => Err(RuntimeError::Reference),
            Some(i) => {
                self.captures.push(i);
                proof {
                    assert(self@.captures =~= old(self)@.captures.push(i as nat));
                    assert(self@.bindings == old(self)@.bindings);
                }
                Ok(())
            },
        }
    }

    /// The current values of the captured bindings, in the order of capture.
    pub fn captured_values(&self) -> (r: Vec<Value>)
        requires
            self@.wf(),
        ensures
            r@ == self@.captured_values(),
    {
        let mut r: Vec<Value> = Vec::new();
        let mut k: usize = 0;
        while k < self.captures.len()
            invariant
                self@.wf(),
                k <= self.captures.len(),
                r@ =~= self@.captured_values().take(k as int),
            decreases self.captures.len() - k,
        {
            let c = self.captures[k];
            proof {
                assert(self@.captures[k as int] == c as nat);
            }
            r.push(self.bindings[c].value);
            k = k + 1;
            proof {
                assert(r@ =~= self@.captured_values().take(k as int));
            }
        }
        proof {
            assert(self@.captured_values().take(k as int) =~= self@.captured_values());
        }
        r
    }
}

} // verus!

use vstd::prelude::*;

verus! {

/// One state of a [`StateMachine`] over shared data of type `D`.
///
/// Each hook is described twice: by a spec function that says what the hook
/// does to the state and the data, and by the executable hook that is held
/// to that description. Unless an implementor says otherwise, entering and
/// leaving are described as changing nothing.
pub trait State<D>: Sized {
    /// The state and the data after [`State::on_enter`].
    open spec fn after_enter(&self, data: &D) -> (Self, D) {
        (*self, *data)
    }

    /// The state, the data and the requested successor after [`State::update`].
    open spec fn after_update(&self, data: &D) -> (Self, D, Option<Self>) {
        arbitrary()
    }

    /// The state and the data after [`State::on_exit`].
    open spec fn after_exit(&self, data: &D) -> (Self, D) {
        (*self, *data)
    }

    /// Runs when the machine enters this state.
    fn on_enter(&mut self, data: &mut D)
        ensures
            (*final(self), *final(data)) == old(self).after_enter(old(data)),
    ;

    /// Runs once per tick; returns the state to switch to, if any.
    fn update(&mut self, data: &mut D) -> (next: Option<Self>)
        ensures
            (*final(self), *final(data), next) == old(self).after_update(old(data)),
    ;

    /// Runs when the machine leaves this state.
    fn on_exit(&mut self, data: &mut D)
        ensures
            (*final(self), *final(data)) == old(self).after_exit(old(data)),
    ;
}

/// What one tick makes of a state and the data: the state is updated; if it
/// asks for a successor, the old state is exited and the successor entered.
pub open spec fn tick<D, S: State<D>>(state: S, data: D) -> (S, D) {
    let (updated, d1, next) = state.after_update(&data);
    match next {
        None => (updated, d1),
        Some(successor) => {
            let (_left, d2) = updated.after_exit(&d1);
            successor.after_enter(&d2)
        },
    }
}

/// A machine that is always in exactly one state.
pub struct StateMachine<S>(S);

impl<S> StateMachine<S> {
    /// The state that the machine is in.
    pub closed spec fn state(&self) -> S {
        self.0
    }

    /// Enters `initial_state` and starts the machine there.
    pub fn new<D>(initial_state: S, data: &mut D) -> (machine: Self) where S: State<D>
        ensures
            (machine.state(), *final(data)) == initial_state.after_enter(old(data)),
    {
        let mut initial_state = initial_state;
        initial_state.on_enter(data);
        StateMachine(initial_state)
    }

    /// Advances the machine by one tick.
    pub fn update<D>(&mut self, data: &mut D) where S: State<D>
        ensures
            (final(self).state(), *final(data)) == tick(old(self).state(), *old(data)),
    {
        if let Some(new_state) = self.0.update(data) {
            self.0.on_exit(data);
            self.0 = new_state;
            self.0.on_enter(data);
        }
    }
}

/// A [`StateMachine`] together with the data that its states work on.
pub struct OwnedStateMachine<D, S> {
    pub state: StateMachine<S>,
    pub data: D,
}

impl<D, S: State<D>> OwnedStateMachine<D, S> {
    /// The state that the machine is in.
    pub open spec fn state(&self) -> S {
        self.state.state()
    }

    /// Enters `initial_state` with `data` and starts the machine there.
    pub fn new(initial_state: S, data: D) -> (machine: Self)
        ensures
            (machine.state(), machine.data) == initial_state.after_enter(&data),
    {
        let mut data = data;
        let state = StateMachine::new(initial_state, &mut data);
        OwnedStateMachine { state, data }
    }

    /// Advances the machine by one tick.
    pub fn update(&mut self)
        ensures
            (final(self).state(), final(self).data) == tick(old(self).state(), old(self).data),
    {
        self.state.update(&mut self.data);
    }
}

} // verus!

use stardust_xr_molecules::state_machine::{OwnedStateMachine, State, StateMachine};

#[derive(Debug, PartialEq)]
enum Light {
    Red(u32),
    Green(u32),
}

impl State<Vec<String>> for Light {
    fn on_enter(&mut self, log: &mut Vec<String>) {
        log.push(format!("enter {:?}", self));
    }

    fn update(&mut self, log: &mut Vec<String>) -> Option<Self> {
        log.push(format!("update {:?}", self));
        match self {
            Light::Red(0) => Some(Light::Green(1)),
            Light::Green(0) => Some(Light::Red(2)),
            Light::Red(left) | Light::Green(left) => {
                *left -= 1;
                None
            }
        }
    }

    fn on_exit(&mut self, log: &mut Vec<String>) {
        log.push(format!("exit {:?}", self));
    }
}

#[test]
fn state_machine_enters_the_initial_state() {
    let mut log: Vec<String> = Vec::new();
    let _machine = StateMachine::new(Light::Red(1), &mut log);
    assert_eq!(log, vec!["enter Red(1)".to_string()]);
}

#[test]
fn state_machine_switches_states_through_exit_and_enter() {
    let mut log: Vec<String> = Vec::new();
    let mut machine = StateMachine::new(Light::Red(1), &mut log);
    machine.update(&mut log);
    machine.update(&mut log);
    machine.update(&mut log);
    let expected: Vec<String> = vec![
        "enter Red(1)",
        "update Red(1)",
        "update Red(0)",
        "exit Red(0)",
        "enter Green(1)",
        "update Green(1)",
    ]
    .into_iter()
    .map(String::from)
    .collect();
    assert_eq!(log, expected);
}

#[test]
fn owned_state_machine_carries_its_data() {
    let mut machine = OwnedStateMachine::new(Light::Green(0), Vec::new());
    assert_eq!(machine.data, vec!["enter Green(0)".to_string()]);
    machine.update();
    let expected: Vec<String> =
        vec!["enter Green(0)", "update Green(0)", "exit Green(0)", "enter Red(2)"]
            .into_iter()
            .map(String::from)
            .collect();
    assert_eq!(machine.data, expected);
}

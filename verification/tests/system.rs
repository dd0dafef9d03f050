use irq_sync::fault::Fault;
use irq_sync::flag::Flag;
use irq_sync::line::{Edge, InterruptSource, LineId, Transition};
use irq_sync::pins::OutputPin;
use irq_sync::system::System;
use irq_sync::trace::Step;

fn button_line() -> LineId {
    LineId::new(40)
}

fn armed_source(edge: Edge) -> InterruptSource {
    let mut source = InterruptSource::new();
    source.configure_trigger(edge);
    source.enable_interrupt();
    source
}

fn armed_system(edge: Edge) -> System {
    let mut system = System::new(button_line());
    assert_eq!(system.install(armed_source(edge)), Ok(()));
    assert_eq!(system.unmask(button_line()), Ok(()));
    system
}

#[test]
fn system_at_start() {
    let system = System::new(button_line());
    assert_eq!(system.flag(), Flag::Idle);
    assert!(!system.is_installed());
    assert!(!system.is_unmasked());
    assert!(!system.is_pending());
    assert!(system.interrupts_enabled());
}

#[test]
fn one_event_one_poll() {
    let mut system = armed_system(Edge::Rising);
    assert_eq!(system.flag(), Flag::Idle);
    system.hardware_event(Transition::Rise);
    assert!(system.poll());
    assert_eq!(system.flag(), Flag::Idle);
    assert!(!system.poll());
}

#[test]
fn two_events_before_a_poll_coalesce() {
    let mut system = armed_system(Edge::Rising);
    system.hardware_event(Transition::Rise);
    system.hardware_event(Transition::Rise);
    let first = system.poll();
    let second = system.poll();
    let third = system.poll();
    assert_eq!((first, second, third), (true, false, false));
    assert_eq!(system.flag(), Flag::Idle);
}

#[test]
fn many_events_between_polls_are_one() {
    for n in 1..20 {
        let mut system = armed_system(Edge::Both);
        assert!(!system.poll());
        for k in 0..n {
            let transition = if k % 2 == 0 { Transition::Rise } else { Transition::Fall };
            system.hardware_event(transition);
        }
        assert!(system.poll());
        assert!(!system.poll());
        assert_eq!(system.flag(), Flag::Idle);
        assert!(!system.is_pending());
    }
}

#[test]
fn unmask_before_install_is_refused() {
    let mut system = System::new(button_line());
    assert_eq!(system.unmask(button_line()), Err(Fault::NotInstalled));
    assert!(!system.is_unmasked());
    system.hardware_event(Transition::Rise);
    assert_eq!(system.flag(), Flag::Idle);
    assert!(!system.poll());
}

#[test]
fn unmask_before_trigger_is_refused() {
    let mut system = System::new(button_line());
    let mut source = InterruptSource::new();
    source.enable_interrupt();
    assert_eq!(system.install(source), Ok(()));
    assert_eq!(system.unmask(button_line()), Err(Fault::TriggerNotConfigured));
    assert!(!system.is_unmasked());
}

#[test]
fn unmask_of_another_line_is_refused() {
    let mut system = System::new(button_line());
    assert_eq!(system.unmask(LineId::new(6)), Err(Fault::UnknownLine));
    assert_eq!(system.install(armed_source(Edge::Rising)), Ok(()));
    assert_eq!(system.unmask(LineId::new(6)), Err(Fault::UnknownLine));
    assert!(!system.is_unmasked());
    assert_eq!(system.mask(LineId::new(6)), Err(Fault::UnknownLine));
}

#[test]
fn second_install_into_the_system_is_a_fault() {
    let mut system = System::new(button_line());
    assert_eq!(system.install(armed_source(Edge::Rising)), Ok(()));
    assert_eq!(system.install(armed_source(Edge::Falling)), Err(Fault::AlreadyInstalled));
    assert_eq!(system.unmask(button_line()), Ok(()));
    system.hardware_event(Transition::Fall);
    assert!(!system.poll());
    system.hardware_event(Transition::Rise);
    assert!(system.poll());
}

#[test]
fn handler_tolerates_an_empty_slot() {
    let mut system = System::new(button_line());
    system.interrupt_handler();
    assert!(!system.is_installed());
    assert!(!system.is_pending());
    assert_eq!(system.flag(), Flag::Signaled);
    assert!(system.interrupts_enabled());
    assert!(system.poll());
}

#[test]
fn handler_clears_the_latch_and_signals() {
    let mut system = System::new(button_line());
    let mut source = armed_source(Edge::Rising);
    source.signal(Transition::Rise);
    assert!(source.is_pending());
    assert_eq!(system.install(source), Ok(()));
    assert!(system.is_pending());
    assert_eq!(system.flag(), Flag::Idle);
    system.interrupt_handler();
    assert!(!system.is_pending());
    assert_eq!(system.flag(), Flag::Signaled);
}

#[test]
fn event_latched_before_unmask_is_handled_at_unmask() {
    let mut system = System::new(button_line());
    assert_eq!(system.install(armed_source(Edge::Rising)), Ok(()));
    system.hardware_event(Transition::Rise);
    assert!(system.is_pending());
    assert_eq!(system.flag(), Flag::Idle);
    assert_eq!(system.unmask(button_line()), Ok(()));
    assert!(!system.is_pending());
    assert_eq!(system.flag(), Flag::Signaled);
}

#[test]
fn event_inside_a_section_waits_for_the_exit() {
    let mut system = armed_system(Edge::Rising);
    let token = system.enter_section();
    assert!(!system.interrupts_enabled());
    system.hardware_event(Transition::Rise);
    system.hardware_event(Transition::Rise);
    assert_eq!(system.flag(), Flag::Idle);
    assert!(system.is_pending());
    system.exit_section(token);
    assert!(system.interrupts_enabled());
    assert_eq!(system.flag(), Flag::Signaled);
    assert!(!system.is_pending());
    assert!(system.poll());
    assert!(!system.poll());
}

#[test]
fn nested_sections_keep_interrupts_off_until_the_outer_exit() {
    let mut system = armed_system(Edge::Rising);
    let outer = system.enter_section();
    let inner = system.enter_section();
    system.hardware_event(Transition::Rise);
    system.exit_section(inner);
    assert!(!system.interrupts_enabled());
    assert_eq!(system.flag(), Flag::Idle);
    assert!(system.is_pending());
    system.exit_section(outer);
    assert!(system.interrupts_enabled());
    assert_eq!(system.flag(), Flag::Signaled);
    assert!(!system.is_pending());
}

#[test]
fn masked_line_keeps_the_event_latched() {
    let mut system = armed_system(Edge::Rising);
    assert_eq!(system.mask(button_line()), Ok(()));
    system.hardware_event(Transition::Rise);
    assert!(system.is_pending());
    assert!(!system.poll());
    assert_eq!(system.unmask(button_line()), Ok(()));
    assert!(!system.is_pending());
    assert!(system.poll());
}

#[test]
fn uncovered_transition_is_ignored() {
    let mut system = armed_system(Edge::Rising);
    system.hardware_event(Transition::Fall);
    assert!(!system.is_pending());
    assert!(!system.poll());
}

#[test]
fn main_loop_toggles_once_per_observed_event() {
    let mut system = armed_system(Edge::Rising);
    let mut indicator = OutputPin::new();
    assert!(!system.main_loop_step(&mut indicator));
    assert!(!indicator.is_set_high());
    system.hardware_event(Transition::Rise);
    assert!(system.main_loop_step(&mut indicator));
    assert!(indicator.is_set_high());
    assert!(!system.main_loop_step(&mut indicator));
    assert!(indicator.is_set_high());
    system.hardware_event(Transition::Rise);
    system.hardware_event(Transition::Rise);
    system.hardware_event(Transition::Rise);
    assert!(system.main_loop_step(&mut indicator));
    assert!(!indicator.is_set_high());
    assert!(!system.main_loop_step(&mut indicator));
    assert!(!indicator.is_set_high());
}

#[test]
fn replay_counts_the_polls_that_saw_an_event() {
    let rise = Step::Event(Transition::Rise);
    let mut system = armed_system(Edge::Rising);
    let steps = vec![Step::Poll, rise, rise, rise, Step::Poll, Step::Poll, rise, Step::Poll, rise];
    assert_eq!(system.replay(&steps), 2);
    assert_eq!(system.flag(), Flag::Signaled);
    assert_eq!(system.replay(&vec![Step::Poll, Step::Poll]), 1);
    assert_eq!(system.flag(), Flag::Idle);
}

#[test]
fn replay_of_nothing_changes_nothing() {
    let mut system = armed_system(Edge::Rising);
    system.hardware_event(Transition::Rise);
    assert_eq!(system.replay(&Vec::new()), 0);
    assert_eq!(system.flag(), Flag::Signaled);
}

#[test]
fn replay_ignores_uncovered_events() {
    let mut system = armed_system(Edge::Falling);
    let steps = vec![Step::Event(Transition::Rise), Step::Poll, Step::Event(Transition::Fall), Step::Poll];
    assert_eq!(system.replay(&steps), 1);
    assert_eq!(system.flag(), Flag::Idle);
}

#[test]
fn replay_before_unmask_observes_nothing() {
    let mut system = System::new(button_line());
    let steps = vec![Step::Event(Transition::Rise), Step::Poll, Step::Event(Transition::Fall), Step::Poll];
    assert_eq!(system.replay(&steps), 0);
    assert_eq!(system.install(armed_source(Edge::Both)), Ok(()));
    assert_eq!(system.replay(&steps), 0);
    assert!(system.is_pending());
    assert_eq!(system.unmask(button_line()), Ok(()));
    assert_eq!(system.replay(&vec![Step::Poll, Step::Poll]), 1);
}

#[test]
fn line_id_keeps_its_number() {
    assert_eq!(LineId::new(40).index(), 40);
    assert_eq!(LineId::new(0).index(), 0);
    assert_eq!(LineId::new(40), button_line());
    assert_ne!(LineId::new(41), button_line());
}

use heavy::scene::{Scene, SceneStack};
use std::cell::RefCell;
use std::rc::Rc;

#[derive(Clone)]
struct Logged {
    name: &'static str,
    draws_previous: bool,
    log: Rc<RefCell<Vec<String>>>,
    spawn_on_update: bool,
}

impl Scene<(), u32> for Logged {
    fn update(&mut self, stack: &mut SceneStack<Self>, _ctx: &mut ()) -> Result<(), anyhow::Error> {
        self.log.borrow_mut().push(format!("update {}", self.name));
        if self.spawn_on_update {
            stack.push(Logged {
                name: "spawned",
                draws_previous: false,
                log: self.log.clone(),
                spawn_on_update: false,
            });
        }
        Ok(())
    }

    fn draw(&mut self, _ctx: &mut ()) -> Result<(), anyhow::Error> {
        self.log.borrow_mut().push(format!("draw {}", self.name));
        Ok(())
    }

    fn event(&mut self, _ctx: &mut (), event: u32) -> Result<(), anyhow::Error> {
        self.log.borrow_mut().push(format!("event {} {}", self.name, event));
        Ok(())
    }

    fn draw_previous(&self) -> bool {
        self.draws_previous
    }
}

fn scene(name: &'static str, draws_previous: bool, log: &Rc<RefCell<Vec<String>>>) -> Logged {
    Logged { name, draws_previous, log: log.clone(), spawn_on_update: false }
}

#[test]
fn push_pop_replace() {
    let log = Rc::new(RefCell::new(Vec::new()));
    let mut stack = SceneStack::new();
    assert_eq!(stack.len(), 0);
    stack.push(scene("a", false, &log));
    stack.push(scene("b", false, &log));
    assert_eq!(stack.current().name, "b");
    let popped = stack.pop();
    assert_eq!(popped.name, "b");
    assert_eq!(stack.len(), 1);
    let replaced = stack.replace(scene("c", false, &log));
    assert_eq!(replaced.name, "a");
    assert_eq!(stack.current().name, "c");
    assert_eq!(stack.len(), 1);
}

#[test]
fn draw_goes_down_while_scenes_ask_for_it() {
    let log = Rc::new(RefCell::new(Vec::new()));
    let mut stack = SceneStack::new();
    stack.push(scene("a", false, &log));
    stack.push(scene("b", false, &log));
    stack.push(scene("c", true, &log));
    <SceneStack<Logged>>::draw::<(), u32>(&mut stack, &mut ()).unwrap();
    assert_eq!(*log.borrow(), vec!["draw b".to_string(), "draw c".to_string()]);
    log.borrow_mut().clear();
    stack.push(scene("d", false, &log));
    stack.draw::<(), u32>(&mut ()).unwrap();
    assert_eq!(*log.borrow(), vec!["draw d".to_string()]);
}

#[test]
fn events_and_updates_go_to_the_current_scene() {
    let log = Rc::new(RefCell::new(Vec::new()));
    let mut stack = SceneStack::new();
    stack.event::<(), u32>(&mut (), 1).unwrap();
    stack.update::<(), u32>(&mut ()).unwrap();
    assert!(log.borrow().is_empty());
    stack.push(scene("a", false, &log));
    stack.push(Logged { spawn_on_update: true, ..scene("b", false, &log) });
    stack.event::<(), u32>(&mut (), 7).unwrap();
    stack.update::<(), u32>(&mut ()).unwrap();
    assert_eq!(
        *log.borrow(),
        vec!["event b 7".to_string(), "update b".to_string()]
    );
    assert_eq!(stack.len(), 3);
    assert_eq!(stack.current().name, "spawned");
}

#[test]
fn default_scene_hooks() {
    let log = Rc::new(RefCell::new(Vec::new()));
    let s = scene("a", false, &log);
    assert_eq!(<Logged as Scene<(), u32>>::name(&s), None);
}

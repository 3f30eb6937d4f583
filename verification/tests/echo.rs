use apocalypse::dispatch;
use apocalypse::Demon;
use apocalypse::Hell;
use apocalypse::Location;
use apocalypse::MiniHell;

struct EchoBot;

impl Demon for EchoBot {
    type Input = String;
    type Output = String;

    fn handle(&mut self, message: String) -> String {
        message
    }
}

struct GreetBot {
    name: String,
}

impl Demon for GreetBot {
    type Input = String;
    type Output = String;

    fn handle(&mut self, message: String) -> String {
        format!("Hey, {} here: {}", self.name, message)
    }
}

struct LocationAwareBot {
    own_address: Option<usize>,
}

impl Demon for LocationAwareBot {
    type Input = ();
    type Output = Option<usize>;

    fn spawned(&mut self, location: Location<Self>) {
        self.own_address = Some(location.address());
    }

    fn handle(&mut self, _message: ()) -> Option<usize> {
        self.own_address
    }
}

#[test]
fn dispatch_echoes_exactly() {
    let mut bot = EchoBot;
    let v = String::from("hello world");
    let reply = dispatch(&mut bot, v.clone());
    assert_eq!(reply.unwrap(), v);
}

#[test]
fn spawn_then_send_returns_the_value_unchanged() {
    // the spawn protocol: reserve an address, start the demon task,
    // register it; then one send, handled through the task's mailbox
    let mut hell = Hell::new();
    let addr = hell.next_address();
    hell.commit_address();
    let mut mini = MiniHell::new();
    let mut bot = EchoBot;
    let location: Location<EchoBot> = Location::new(addr);
    bot.spawned(location.clone());
    hell.register_demon(addr).unwrap();

    hell.route_message(location.address()).unwrap();
    mini.accept_message(1);
    hell.record_message_outcome(true);

    assert_eq!(mini.start_handle(), Some(1));
    let v = String::from("a perfectly ordinary value");
    let reply = dispatch(&mut bot, v.clone()).unwrap();
    mini.finish_handle();

    assert_eq!(reply, v);
    assert_eq!(hell.stats().successful_messages, 1);
}

#[test]
fn handlers_with_state_see_their_own_state() {
    let mut bot = GreetBot { name: String::from("Carlos") };
    let reply = dispatch(&mut bot, String::from("hello world")).unwrap();
    assert_eq!(reply, "Hey, Carlos here: hello world");
}

#[test]
fn the_spawn_hook_hands_the_demon_its_own_location() {
    let mut bot = LocationAwareBot { own_address: None };
    let location: Location<LocationAwareBot> = Location::new(9);
    bot.spawned(location);
    assert_eq!(dispatch(&mut bot, ()).unwrap(), Some(9));
}

use hive_agent::calendar::{
    alarm_set_text, delete_event, event_created_text, list_alarms, list_events, parse_calendar_command, parse_time,
    AlarmPayload, CalendarCommand, CalendarEvent, TimeSpec, TimeUnit, INVALID_TIME_TEXT,
};
use hive_agent::contacts::{
    contact_added_text, delete_contact, list_contacts, new_contact, parse_contact_command,
    search_contacts, update_contact, Contact, ContactChanges, ContactCommand,
};

fn event(id: &str, title: &str) -> CalendarEvent {
    CalendarEvent {
        id: id.to_string(),
        title: title.to_string(),
        start_time: "2024-05-01T10:00:00+00:00".to_string(),
        end_time: None,
        location: None,
        description: None,
        recurring: None,
        created_at: "2024-04-01T00:00:00+00:00".to_string(),
    }
}

#[test]
fn relative_times() {
    match parse_time("+5m").unwrap() {
        TimeSpec::After { amount, unit } => {
            assert_eq!(amount, 5);
            assert_eq!(unit, TimeUnit::Minutes);
        }
        _ => panic!("expected a relative time"),
    }
    match parse_time("+2d").unwrap() {
        TimeSpec::After { amount, unit } => assert_eq!((amount, unit), (2, TimeUnit::Days)),
        _ => panic!("expected a relative time"),
    }
    assert_eq!(parse_time("+xm").err(), Some("Bad minutes".to_string()));
    assert_eq!(parse_time("+h").err(), Some("Bad hours".to_string()));
}

#[test]
fn absolute_times_are_read_in_utc() {
    match parse_time("2024-01-01T00:00:00+02:00").unwrap() {
        TimeSpec::At { utc } => assert_eq!(utc, "2023-12-31T22:00:00+00:00"),
        _ => panic!("expected an absolute time"),
    }
    assert_eq!(parse_time("tomorrow").err(), Some(INVALID_TIME_TEXT.to_string()));
}

#[test]
fn calendar_requests() {
    match parse_calendar_command("time:[+10m] message:[stretch]").unwrap() {
        CalendarCommand::SetAlarm { message, .. } => assert_eq!(message, "stretch"),
        _ => panic!("expected an alarm"),
    }
    let e = parse_calendar_command("action:[set_alarm] message:[x]").err().unwrap();
    assert_eq!(e.output, "Error: Missing 'time:' or 'message:' params.");
    assert_eq!(e.reason, "Missing Params");
    let e = parse_calendar_command("time:[soon] message:[x]").err().unwrap();
    assert_eq!(e.output, format!("Error: {}", INVALID_TIME_TEXT));
    assert_eq!(e.reason, "Bad Parse");
    let e = parse_calendar_command("action:[create_event] start:[+1h]").err().unwrap();
    assert_eq!(e.output, "Error: 'title:' is required.");
    let e = parse_calendar_command("action:[create_event] title:[Lunch]").err().unwrap();
    assert_eq!(e.output, "Error: 'start:' time is required.");
    let e = parse_calendar_command("action:[create_event] title:[Lunch] start:[+1h] end:[later]").err().unwrap();
    assert_eq!(e.output, format!("Error parsing end time: {}", INVALID_TIME_TEXT));
    match parse_calendar_command("action:[create_event] title:[Lunch] start:[+1h] location:[Cafe]").unwrap() {
        CalendarCommand::CreateEvent { title, end, location, .. } => {
            assert_eq!(title, "Lunch");
            assert!(end.is_none());
            assert_eq!(location, Some("Cafe".to_string()));
        }
        _ => panic!("expected an event"),
    }
    assert!(matches!(parse_calendar_command("action:[list_events]").unwrap(), CalendarCommand::ListEvents));
    let e = parse_calendar_command("action:[delete_event]").err().unwrap();
    assert_eq!(e.output, "Error: 'id:' is required.");
    let e = parse_calendar_command("action:[dance]").err().unwrap();
    assert_eq!(
        e.output,
        "Error: Unknown action 'dance'. Use: set_alarm, list_alarms, create_event, list_events, delete_event."
    );
    assert_eq!(e.reason, "Bad Action");
}

#[test]
fn calendar_listings() {
    assert_eq!(list_alarms(&vec![]), "No alarms set.");
    let alarm = AlarmPayload {
        id: "abcdefgh-1234".to_string(),
        trigger_time: "2024-05-01T10:00:00+00:00".to_string(),
        message: "stretch".to_string(),
        status: "pending".to_string(),
    };
    assert_eq!(
        list_alarms(&vec![alarm]),
        "⏰ 1 alarm(s):\n\n• [abcdefgh] 2024-05-01T10:00:00+00:00 — stretch (pending)"
    );
    assert_eq!(list_events(&vec![]), "No calendar events.");
    let mut e = event("e1", "Lunch");
    e.location = Some("Cafe".to_string());
    e.description = Some("with Sam".to_string());
    assert_eq!(
        list_events(&vec![e]),
        "📅 1 event(s):\n\n• Lunch (id: e1) — 2024-05-01T10:00:00+00:00 @ Cafe\n  with Sam"
    );
    assert_eq!(
        event_created_text(&event("e2", "Gym"), 3),
        "Event 'Gym' created (id: e2) at 2024-05-01T10:00:00+00:00. Total events: 3"
    );
}

#[test]
fn deleted_event_is_gone() {
    let mut events = vec![event("a", "A"), event("b", "B"), event("a", "A again")];
    assert_eq!(delete_event(&mut events, "a").unwrap(), "Event 'a' deleted. 1 events remaining.");
    assert_eq!(events.len(), 1);
    assert_eq!(events[0].id, "b");
    let e = delete_event(&mut events, "a").err().unwrap();
    assert_eq!(e.output, "No event with id 'a'.");
    assert_eq!(e.reason, "Not found");
    assert_eq!(events.len(), 1);
}

fn contact(id: &str, name: &str) -> Contact {
    let fields = ContactChanges {
        name: Some(name.to_string()),
        email: None,
        discord_id: None,
        phone: None,
        notes: None,
        tags: None,
    };
    new_contact(id.to_string(), fields, "t0".to_string())
}

#[test]
fn contact_requests() {
    match parse_contact_command("action:[add] name:[Ada] email:[ada@x.org] tags:[math, friends]").unwrap() {
        ContactCommand::Add { fields } => {
            assert_eq!(fields.name, Some("Ada".to_string()));
            assert_eq!(fields.email, Some("ada@x.org".to_string()));
            assert_eq!(fields.tags, Some(vec!["math".to_string(), "friends".to_string()]));
            let c = new_contact("c1".to_string(), fields, "t0".to_string());
            assert_eq!(contact_added_text(&c, 1), "Contact 'Ada' added (id: c1). Total contacts: 1");
        }
        _ => panic!("expected an addition"),
    }
    assert!(matches!(parse_contact_command("").unwrap(), ContactCommand::List));
    match parse_contact_command("action:[search] query:[ADA]").unwrap() {
        ContactCommand::Search { query } => assert_eq!(query, "ada"),
        _ => panic!("expected a search"),
    }
    let e = parse_contact_command("action:[add]").err().unwrap();
    assert_eq!((e.output.as_str(), e.reason.as_str()), ("Error: 'name:' is required.", "Missing name"));
    let e = parse_contact_command("action:[search]").err().unwrap();
    assert_eq!((e.output.as_str(), e.reason.as_str()), ("Error: 'query:' is required.", "Missing query"));
    let e = parse_contact_command("action:[delete]").err().unwrap();
    assert_eq!((e.output.as_str(), e.reason.as_str()), ("Error: 'id:' is required.", "Missing id"));
    let e = parse_contact_command("action:[call]").err().unwrap();
    assert_eq!(e.output, "Error: Unknown action 'call'. Use: add, list, search, update, delete.");
}

#[test]
fn contact_listing_and_search() {
    assert_eq!(list_contacts(&vec![]), "No contacts found.");
    let mut ada = contact("c1", "Ada");
    ada.email = Some("ada@x.org".to_string());
    ada.tags = vec!["math".to_string()];
    let bob = contact("c2", "Bob");
    let book = vec![ada, bob];
    assert_eq!(
        list_contacts(&book),
        "📒 2 contacts:\n\n• Ada (id: c1) | ✉ ada@x.org | 🏷 math\n• Bob (id: c2)"
    );
    assert_eq!(search_contacts(&book, "math"), "Found 1 match(es) for 'math':\n\n• Ada (id: c1) | ✉ ada@x.org");
    assert_eq!(search_contacts(&book, "zed"), "No contacts matching 'zed'.");
}

#[test]
fn contact_update_and_delete() {
    let mut book = vec![contact("c1", "Ada"), contact("c2", "Bob")];
    let changes = ContactChanges {
        name: None,
        email: None,
        discord_id: None,
        phone: Some("555".to_string()),
        notes: None,
        tags: None,
    };
    assert_eq!(update_contact(&mut book, "c2", &changes, "t1".to_string()).unwrap(), "Contact 'Bob' (id: c2) updated.");
    assert_eq!(book[1].phone, Some("555".to_string()));
    assert_eq!(book[1].updated_at, "t1");
    assert_eq!(book[1].created_at, "t0");
    assert_eq!(book[0].phone, None);
    let e = update_contact(&mut book, "c9", &changes, "t2".to_string()).err().unwrap();
    assert_eq!(e.output, "No contact with id 'c9'.");
    assert_eq!(delete_contact(&mut book, "c1").unwrap(), "Contact 'c1' deleted. 1 contacts remaining.");
    assert_eq!(book.len(), 1);
    assert_eq!(book[0].id, "c2");
    let e = delete_contact(&mut book, "c1").err().unwrap();
    assert_eq!((e.output.as_str(), e.reason.as_str()), ("No contact with id 'c1'.", "Not found"));
}

#[test]
fn alarm_set_answer() {
    assert_eq!(alarm_set_text("2030-01-01T00:00:00+00:00"), "Alarm set for 2030-01-01T00:00:00+00:00.");
}

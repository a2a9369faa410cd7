use magic_ball::readings::{example_predictions, get_random_prediction, PREDICTIONS, SAMPLE_SIZE};
use magic_ball::router::{handle_request, Method};

#[test]
fn the_list_has_twenty_readings_in_order() {
    assert_eq!(PREDICTIONS.len(), 20);
    assert_eq!(PREDICTIONS[0], "It is certain");
    assert_eq!(PREDICTIONS[9], "Signs point to yes");
    assert_eq!(PREDICTIONS[10], "Don't count on it");
    assert_eq!(PREDICTIONS[14], "Very doubtful");
    assert_eq!(PREDICTIONS[15], "Reply hazy, try again");
    assert_eq!(PREDICTIONS[19], "Concentrate and ask again");
    for i in 0..20 {
        for j in 0..i {
            assert_ne!(PREDICTIONS[i], PREDICTIONS[j]);
        }
    }
}

#[test]
fn every_pick_is_in_the_list() {
    for _ in 0..2000 {
        let reading = get_random_prediction();
        assert!(PREDICTIONS.contains(&reading.as_str()), "reading {}", reading);
    }
}

#[test]
fn every_answer_of_the_api_carries_a_reading_of_the_list() {
    for _ in 0..2000 {
        let response = handle_request(Method::Get, "/api");
        assert_eq!(response.status, 200);
        let found = PREDICTIONS
            .iter()
            .filter(|reading| response.body == format!("{{\"reading\":\"{}\"}}", reading))
            .count();
        assert_eq!(found, 1, "body {}", response.body);
    }
}

#[test]
fn every_reading_is_seen_in_a_large_sample() {
    let mut seen = [0usize; 20];
    for _ in 0..10000 {
        let reading = get_random_prediction();
        let index = PREDICTIONS.iter().position(|known| *known == reading).unwrap();
        seen[index] += 1;
    }
    for (index, count) in seen.iter().enumerate() {
        assert!(*count > 0, "reading {} was never drawn", PREDICTIONS[index]);
    }
    assert_eq!(seen.iter().sum::<usize>(), 10000);
}

#[test]
fn picks_vary() {
    let first = get_random_prediction();
    let mut other = false;
    for _ in 0..1000 {
        if get_random_prediction() != first {
            other = true;
        }
    }
    assert!(other);
}

#[test]
fn many_requests_in_a_row_are_each_answered() {
    let mut bodies = Vec::new();
    for _ in 0..100 {
        let response = handle_request(Method::Get, "/api");
        assert_eq!(response.status, 200);
        assert_eq!(response.headers.len(), 4);
        bodies.push(response.body);
    }
    assert_eq!(bodies.len(), 100);
    for body in bodies.iter() {
        assert!(PREDICTIONS.iter().any(|reading| *body == format!("{{\"reading\":\"{}\"}}", reading)));
    }
}

#[test]
fn the_banner_shows_the_first_five() {
    let (sample, more) = example_predictions();
    assert_eq!(SAMPLE_SIZE, 5);
    assert_eq!(
        sample,
        vec![
            "It is certain",
            "It is decidedly so",
            "Without a doubt",
            "Yes definitely",
            "You may rely on it"
        ]
    );
    assert_eq!(more, 15);
}

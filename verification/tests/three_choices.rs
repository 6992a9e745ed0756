use tcpst::choices::{
    BranchingsA3Choices, BranchingsOfferToRoleA3Choices, BranchingsSelectA3Choices,
    BranchingsSelectFromRoleA3Choices, OfferToRoleA3Choices, SelectFromRoleA3Choices,
};
use tcpst::message::{Close, Connected, Open};
use tcpst::multiparty::End;
use tcpst::session::{Action, Terminate};

type Offering = OfferToRoleA3Choices<Open, u16, Close, End, Terminate, End>;
type Selecting = SelectFromRoleA3Choices<Open, u16, Close, End, Terminate, End>;

#[test]
fn offer_obtains_the_message_of_the_alternative_that_was_picked() {
    let r = Offering::new().offer(
        || Open {},
        || 7u16,
        || -> Close { panic!("the third emitter was used") },
        || BranchingsOfferToRoleA3Choices::Branch1,
    );
    match r {
        BranchingsA3Choices::Two((n, _)) => assert_eq!(n, 7),
        _ => panic!("the second alternative was picked"),
    }
    let r = Offering::new().offer(
        || Open {},
        || -> u16 { panic!("the second emitter was used") },
        || Close {},
        || BranchingsOfferToRoleA3Choices::Branch0,
    );
    assert!(matches!(r, BranchingsA3Choices::One((Open {}, _))));
    let r = Offering::new().offer(
        || -> Open { panic!("the first emitter was used") },
        || 1u16,
        || Close {},
        || BranchingsOfferToRoleA3Choices::Branch2,
    );
    assert!(matches!(r, BranchingsA3Choices::Three((Close {}, _))));
}

#[test]
fn select_hands_the_message_of_the_alternative_that_was_picked_to_its_emitter() {
    let (tx, rx) = std::sync::mpsc::channel::<u16>();
    let r = Selecting::new().select(
        |_m: Open| panic!("the first emitter was used"),
        move |n: u16| tx.send(n).unwrap(),
        |_m: Close| panic!("the third emitter was used"),
        Open {},
        42,
        Close {},
        || BranchingsSelectFromRoleA3Choices::Branch1,
    );
    assert!(matches!(r, BranchingsSelectA3Choices::Two(_)));
    assert_eq!(rx.try_recv(), Ok(42));
    assert!(rx.try_recv().is_err());

    let (tx, rx) = std::sync::mpsc::channel::<Close>();
    let r = Selecting::new().select(
        |_m: Open| panic!("the first emitter was used"),
        |_n: u16| panic!("the second emitter was used"),
        move |m: Close| tx.send(m).unwrap(),
        Open {},
        42,
        Close {},
        || BranchingsSelectFromRoleA3Choices::Branch2,
    );
    assert!(matches!(r, BranchingsSelectA3Choices::Three(_)));
    assert_eq!(rx.try_recv(), Ok(Close {}));
}

#[test]
fn select_can_follow_a_picker_of_the_offering_kind() {
    let (tx, rx) = std::sync::mpsc::channel::<Open>();
    let r = Selecting::new().offer(
        move |m: Open| tx.send(m).unwrap(),
        |_n: u16| panic!("the second emitter was used"),
        |_m: Close| panic!("the third emitter was used"),
        Open {},
        42,
        Close {},
        || BranchingsA3Choices::One((Open {}, End::new())),
    );
    assert!(matches!(r, BranchingsSelectA3Choices::One(_)));
    assert_eq!(rx.try_recv(), Ok(Open {}));
    let _ = Connected {};
}

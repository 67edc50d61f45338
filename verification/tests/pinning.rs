use fish_bridge::host::WideCharList;
use fish_bridge::pin::Repin;

struct Parser {
    depth: u32,
}

impl Repin for Parser {}

#[test]
fn pin_then_unpin_gives_the_same_parser() {
    let mut parser = Parser { depth: 1 };
    let before = format!("{:p}", &parser);
    let after = {
        let plain = Parser::unpin(parser.pin());
        assert_eq!(plain.depth, 1);
        format!("{:p}", plain)
    };
    assert_eq!(before, after);
}

#[test]
fn change_through_the_unpinned_reference_reaches_the_object() {
    let mut parser = Parser { depth: 1 };
    {
        let plain = Parser::unpin(parser.pin());
        plain.depth = 9;
    }
    assert_eq!(parser.depth, 9);
}

#[test]
fn pin_then_unpin_gives_the_same_list() {
    let mut list = WideCharList::new(vec![vec![0x61], vec![0x62, 0x62]]);
    let before = format!("{:p}", &list);
    let after = {
        let plain = WideCharList::unpin(list.pin());
        assert_eq!(plain.size(), 2);
        format!("{:p}", plain)
    };
    assert_eq!(before, after);
    assert_eq!(list.size(), 2);
}

#[test]
fn repinning_twice_still_gives_the_same_object() {
    let mut parser = Parser { depth: 3 };
    let before = format!("{:p}", &parser);
    let after = {
        let once = Parser::unpin(parser.pin());
        let twice = Parser::unpin(once.pin());
        twice.depth += 1;
        format!("{:p}", twice)
    };
    assert_eq!(before, after);
    assert_eq!(parser.depth, 4);
}

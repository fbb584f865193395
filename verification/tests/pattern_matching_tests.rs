use threadpool::pattern_matching::{
    describe_number, format_score, handle_event, Event, Message, Point,
};

/// 模式支持范围匹配
#[test]
fn test_match_range() {
    assert_eq!(format_score(90), "优秀");
    assert_eq!(format_score(89), "良好");
    assert_eq!(format_score(69), "及格");
    assert_eq!(format_score(50), "不及格");
}

/// 模式匹配：变量绑定
#[test]
fn test_match_binding() {
    let x = 42;

    let result = match x {
        n @ 1..=100 => format!("在 1~100 之间，值是 {n}"),
        _ => "其他值".to_string(),
    };

    assert_eq!(result, "在 1~100 之间，值是 42");
}

/// 多模式匹配（or）
#[test]
fn test_match_or() {
    let x = 2;

    let result = match x {
        1 | 2 | 3 => "1、2 或 3",
        4 => "4",
        _ => "其他",
    };

    assert_eq!(result, "1、2 或 3");
}

/// 匹配守卫
#[test]
fn test_match_guard() {
    assert_eq!(describe_number(1), "奇数小于10");
    assert_eq!(describe_number(2), "偶数小于10");
    assert_eq!(describe_number(100), "其他数字");
}

/// 结构体匹配
#[test]
fn test_match_struct() {
    assert_eq!(Point::new(0, 0).describe(), "在原点上");
    assert_eq!(Point::new(2, 0).describe(), "在 x 轴上， x = 2");
    assert_eq!(Point::new(0, 3).describe(), "在 y 轴上， y = 3");
    assert_eq!(Point::new(2, 3).describe(), "在其他位置上， x = 2, y = 3");
}

/// 元组模式匹配
#[test]
fn test_match_tuple() {
    assert_eq!(Point::new(0, 0).describe2(), "在原点上");
    assert_eq!(Point::new(2, 0).describe2(), "在 x 轴上， x = 2");
    assert_eq!(Point::new(0, 3).describe2(), "在 y 轴上， y = 3");
    assert_eq!(Point::new(2, 3).describe2(), "在其他位置上， x = 2, y = 3");
}

/// 枚举模式匹配
#[test]
fn test_match_enum() {
    let message: String = Message::Quit.into();
    assert_eq!(message, "退出");

    let messge: String = Message::Move { x: 2, y: 3 }.into();
    assert_eq!(messge, "移动到 2, 3".to_string());

    let message: String = Message::Write("你好！".to_string()).into();
    assert_eq!(message, "写入： 你好！")
}

#[test]
fn test_while_let() {
    let mut nums = vec![1, 2, 3];
    let mut size = 0;

    while let Some(_) = nums.pop() {
        size += 1;
    }

    println!("共弹出了 {size} 个数字");

    assert_eq!(size, 3);
}

#[test]
fn test_for_in_move() {
    let nums = vec![1, 2, 3];
    let mut size = 0;

    for n in nums {
        println!("数字：{n}");
        size += 1;
    }

    println!("共输出了 {size} 个数字");

    assert_eq!(size, 3);
}

#[test]
fn test_for_in_borrow() {
    let nums = vec![1, 2, 3];
    let mut size = 0;

    for n in nums.iter() {
        println!("数字：{n}");
        size += 1;
    }

    println!("共输出了 {size} 个数字");

    assert_eq!(size, 3);
    assert_eq!(nums.len(), 3);
}

#[test]
fn test_match_guard_with_pattern_and_binding() {
    assert_eq!(handle_event(Event::KeyPress('0')), "数字键 0 被按下");
    assert_eq!(handle_event(Event::KeyPress('b')), "字符键 b 被按下");
    assert_eq!(handle_event(Event::MouseClick { x: 10, y: 10 }), "点击在左上角， x=10, y=10");
    assert_eq!(
        handle_event(Event::MouseClick { x: 210, y: 10 }),
        "点击在其他位置， x=210, y=10"
    );
    assert_eq!(
        handle_event(Event::Resize { width: 10, height: 20 }),
        "窗口大小调整为 (10, 20) -> 事件对象：Resize { width: 10, height: 20 }"
    );
}

#[test]
fn test_matches_macro() {
    let event = Event::MouseClick { x: 50, y: 60 };

    assert!(matches!(event, Event::MouseClick { x: 0..100, y: 0..100 }));
    assert!(
        matches!(event, Event::MouseClick { x, y } if (0..100).contains(&x) && (0..100).contains(&y))
    );
}

#[test]
fn test_matches_macro_with_guard() {
    let events = vec![Event::KeyPress('1'), Event::KeyPress('A'), Event::KeyPress('5')];

    let count = events.iter().filter(|e| matches!(e, Event::KeyPress('0'..'9'))).count();

    println!("数字键数量：{}", count);
    assert_eq!(count, 2);
}

/// 数组模式匹配
#[test]
fn test_match_array() {
    fn f(arr: &[i32]) -> String {
        match arr {
            [1, 2, 3] => "完全匹配 [1, 2, 3]".to_string(),
            [1, x, 3] => format!("中间元素是 {x}"),
            [first, middle @ .., last] => {
                format!("first={first}, middle={middle:?}, last={last}")
            }
            _ => "其他情况".to_string(),
        }
    }

    assert_eq!(f(&[1, 2, 3]), "完全匹配 [1, 2, 3]");
    assert_eq!(f(&[1, 4, 3]), "中间元素是 4");
    assert_eq!(f(&[1, 2]), "first=1, middle=[], last=2");
    assert_eq!(f(&[1, 2, 3, 4]), "first=1, middle=[2, 3], last=4");
    assert_eq!(f(&[1]), "其他情况");
}

/// vec模式匹配
#[test]
fn test_match_vec() {
    fn f(v: &[i32]) -> String {
        match v {
            [a, b, c] => format!("三个元素： {a}, {b}, {c}"),
            [first, rest @ ..] => format!("first={first}, rest={rest:?}"),
            [] => "空 Vec".to_string(),
        }
    }

    assert_eq!(f(&vec![1, 2, 3]), "三个元素： 1, 2, 3");
    assert_eq!(f(&vec![1, 2, 3, 4]), "first=1, rest=[2, 3, 4]");
    assert_eq!(f(&vec![]), "空 Vec");
}

#[test]
fn test_match_ref() {
    let arr = [String::from("a"), String::from("b")];

    let result = match arr {
        [ref first, ref second] => {
            format!("first = {first}, second = {second}")
        }
    };

    assert_eq!(result, "first = a, second = b");
    assert_eq!(arr.len(), 2);
}

#[test]
fn scores_change_grade_at_the_bounds() {
    assert_eq!(format_score(100), "优秀");
    assert_eq!(format_score(101), "不及格");
    assert_eq!(format_score(255), "不及格");
    assert_eq!(format_score(70), "良好");
    assert_eq!(format_score(60), "及格");
    assert_eq!(format_score(59), "不及格");
    assert_eq!(format_score(0), "不及格");
}

#[test]
fn a_negative_odd_number_is_neither_odd_nor_even_below_ten() {
    assert_eq!(describe_number(-3), "其他数字");
    assert_eq!(describe_number(-2), "偶数小于10");
    assert_eq!(describe_number(0), "偶数小于10");
    assert_eq!(describe_number(9), "奇数小于10");
    assert_eq!(describe_number(10), "其他数字");
    assert_eq!(describe_number(11), "其他数字");
    assert_eq!(describe_number(i32::MIN), "偶数小于10");
    assert_eq!(describe_number(i32::MAX), "其他数字");
}

#[test]
fn points_with_negative_coordinates_are_described_with_their_sign() {
    assert_eq!(Point::new(-2, 0).describe(), "在 x 轴上， x = -2");
    assert_eq!(Point::new(0, -30).describe2(), "在 y 轴上， y = -30");
    assert_eq!(
        Point::new(i32::MIN, i32::MAX).describe(),
        "在其他位置上， x = -2147483648, y = 2147483647"
    );
    assert_eq!(
        Point::new(i32::MIN, i32::MAX).describe2(),
        "在其他位置上， x = -2147483648, y = 2147483647"
    );
}

#[test]
fn a_click_is_in_the_corner_up_to_ninety_nine() {
    assert_eq!(handle_event(Event::MouseClick { x: 0, y: 99 }), "点击在左上角， x=0, y=99");
    assert_eq!(handle_event(Event::MouseClick { x: 100, y: 0 }), "点击在其他位置， x=100, y=0");
    assert_eq!(handle_event(Event::MouseClick { x: -1, y: 5 }), "点击在其他位置， x=-1, y=5");
    assert_eq!(handle_event(Event::MouseClick { x: 5, y: 100 }), "点击在其他位置， x=5, y=100");
}

#[test]
fn keys_are_digits_from_zero_to_nine() {
    assert_eq!(handle_event(Event::KeyPress('9')), "数字键 9 被按下");
    assert_eq!(handle_event(Event::KeyPress('/')), "字符键 / 被按下");
    assert_eq!(handle_event(Event::KeyPress(':')), "字符键 : 被按下");
    assert_eq!(handle_event(Event::KeyPress('键')), "字符键 键 被按下");
}

#[test]
fn a_resize_is_reported_as_its_debug_form() {
    for (width, height) in [(0, 0), (-5, 7), (1920, 1080)] {
        let event = Event::Resize { width, height };
        let expected = format!("窗口大小调整为 ({width}, {height}) -> 事件对象：{:?}", event);
        assert_eq!(handle_event(event), expected);
    }
}

#[test]
fn a_message_turns_into_words() {
    assert_eq!(String::from(Message::Move { x: -1, y: 0 }), "移动到 -1, 0");
    assert_eq!(String::from(Message::Write(String::new())), "写入： ");
}

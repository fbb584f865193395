//! Values told apart by their shape: scores by range, numbers by parity,
//! points by axis, messages and input events by variant.

use vstd::prelude::*;
use crate::text::{decimal, push_decimal};

verus! {

/// The grade of a score.
pub open spec fn score_label(score: int) -> Seq<char> {
    if 90 <= score <= 100 {
        "优秀"@
    } else if 70 <= score < 90 {
        "良好"@
    } else if 60 <= score < 70 {
        "及格"@
    } else {
        "不及格"@
    }
}

/// The grade of a score: 90 to 100, 70 to 89, 60 to 69, and the rest.
pub fn format_score(score: u8) -> (label: &'static str)
    ensures
        label@ == score_label(score as int),
{
    if score >= 90 && score <= 100 {
        "优秀"
    } else if score >= 70 && score < 90 {
        "良好"
    } else if score >= 60 && score < 70 {
        "及格"
    } else {
        "不及格"
    }
}

/// What is said of a number. A negative odd number is neither "odd below
/// ten" nor "even below ten": its remainder by two is not one.
pub open spec fn number_label(x: int) -> Seq<char> {
    if 0 <= x < 10 && x % 2 == 1 {
        "奇数小于10"@
    } else if x < 10 && x % 2 == 0 {
        "偶数小于10"@
    } else {
        "其他数字"@
    }
}

/// Says whether a number is odd and below ten, even and below ten, or
/// neither.
pub fn describe_number(x: i32) -> (label: &'static str)
    ensures
        label@ == number_label(x as int),
{
    if x % 2 == 1 && x < 10 {
        "奇数小于10"
    } else if x % 2 == 0 && x < 10 {
        "偶数小于10"
    } else {
        "其他数字"
    }
}

/// Where a point lies: on the origin, on one of the axes, or elsewhere.
pub open spec fn position_text(x: int, y: int) -> Seq<char> {
    if x == 0 && y == 0 {
        "在原点上"@
    } else if x == 0 {
        "在 y 轴上， y = "@ + decimal(y)
    } else if y == 0 {
        "在 x 轴上， x = "@ + decimal(x)
    } else {
        "在其他位置上， x = "@ + decimal(x) + ", y = "@ + decimal(y)
    }
}

/// A point of the plane.
pub struct Point {
    pub x: i32,
    pub y: i32,
}

impl Point {
    /// The point with the given coordinates.
    pub fn new(x: i32, y: i32) -> (p: Point)
        ensures
            p.x == x,
            p.y == y,
    {
        Point { x, y }
    }

    /// Says where the point lies.
    pub fn describe(&self) -> (text: String)
        ensures
            text@ == position_text(self.x as int, self.y as int),
    {
        match self {
            Point { x: 0, y: 0 } => String::from_str("在原点上"),
            Point { x: 0, y } => {
                let mut text = String::from_str("在 y 轴上， y = ");
                push_decimal(&mut text, *y as i64);
                text
            },
            Point { x, y: 0 } => {
                let mut text = String::from_str("在 x 轴上， x = ");
                push_decimal(&mut text, *x as i64);
                text
            },
            Point { x, y } => {
                let mut text = String::from_str("在其他位置上， x = ");
                push_decimal(&mut text, *x as i64);
                text.append(", y = ");
                push_decimal(&mut text, *y as i64);
                text
            },
        }
    }

    /// Says where the point lies, going by the pair of its coordinates.
    pub fn describe2(&self) -> (text: String)
        ensures
            text@ == position_text(self.x as int, self.y as int),
    {
        match (self.x, self.y) {
            (0, 0) => String::from_str("在原点上"),
            (0, y) => {
                let mut text = String::from_str("在 y 轴上， y = ");
                push_decimal(&mut text, y as i64);
                text
            },
            (x, 0) => {
                let mut text = String::from_str("在 x 轴上， x = ");
                push_decimal(&mut text, x as i64);
                text
            },
            (x, y) => {
                let mut text = String::from_str("在其他位置上， x = ");
                push_decimal(&mut text, x as i64);
                text.append(", y = ");
                push_decimal(&mut text, y as i64);
                text
            },
        }
    }
}

/// A message.
pub enum Message {
    Quit,
    Move { x: i32, y: i32 },
    Write(String),
}

/// A message in words.
pub open spec fn message_text(message: Message) -> Seq<char> {
    match message {
        Message::Quit => "退出"@,
        Message::Move { x, y } => "移动到 "@ + decimal(x as int) + ", "@ + decimal(y as int),
        Message::Write(content) => "写入： "@ + content@,
    }
}

impl From<Message> for String {
    /// The message in words.
    fn from(value: Message) -> (text: String)
        ensures
            text@ == message_text(value),
    {
        match value {
            Message::Quit => String::from_str("退出"),
            Message::Move { x, y } => {
                let mut text = String::from_str("移动到 ");
                push_decimal(&mut text, x as i64);
                text.append(", ");
                push_decimal(&mut text, y as i64);
                text
            },
            Message::Write(content) => {
                let mut text = String::from_str("写入： ");
                text.append(content.as_str());
                text
            },
        }
    }
}

/// The conversion is specified by the `ensures` of `from` itself, over the
/// text of the result, and not by a string named here.
impl vstd::std_specs::convert::FromSpecImpl<Message> for String {
    open spec fn obeys_from_spec() -> bool {
        false
    }

    open spec fn from_spec(v: Message) -> String {
        arbitrary()
    }
}

/// Something that the user did.
#[derive(Debug)]
pub enum Event {
    KeyPress(char),
    MouseClick { x: i32, y: i32 },
    Resize { width: i32, height: i32 },
}

/// A resize as the debug form of its variant.
pub open spec fn resize_debug(width: int, height: int) -> Seq<char> {
    "Resize { width: "@ + decimal(width) + ", height: "@ + decimal(height) + " }"@
}

/// What is reported of an event: a key by whether it is a digit, a click by
/// whether it falls into the upper left corner (both coordinates from 0 to
/// 99), a resize with its new size and the event itself.
pub open spec fn event_text(event: Event) -> Seq<char> {
    match event {
        Event::KeyPress(key) => if '0' <= key <= '9' {
            "数字键 "@.push(key) + " 被按下"@
        } else {
            "字符键 "@.push(key) + " 被按下"@
        },
        Event::MouseClick { x, y } => if 0 <= x < 100 && 0 <= y < 100 {
            "点击在左上角， x="@ + decimal(x as int) + ", y="@ + decimal(y as int)
        } else {
            "点击在其他位置， x="@ + decimal(x as int) + ", y="@ + decimal(y as int)
        },
        Event::Resize { width, height } => "窗口大小调整为 ("@ + decimal(width as int) + ", "@
            + decimal(height as int) + ") -> 事件对象："@ + resize_debug(width as int, height as int),
    }
}

/// Reports an event.
pub fn handle_event(event: Event) -> (text: String)
    ensures
        text@ == event_text(event),
{
    match event {
        Event::KeyPress(key) => {
            let mut text = if key >= '0' && key <= '9' {
                String::from_str("数字键 ")
            } else {
                String::from_str("字符键 ")
            };
            text.push(key);
            text.append(" 被按下");
            text
        },
        Event::MouseClick { x, y } => {
            let mut text = if 0 <= x && x < 100 && 0 <= y && y < 100 {
                String::from_str("点击在左上角， x=")
            } else {
                String::from_str("点击在其他位置， x=")
            };
            push_decimal(&mut text, x as i64);
            text.append(", y=");
            push_decimal(&mut text, y as i64);
            text
        },
        Event::Resize { width, height } => {
            let mut text = String::from_str("窗口大小调整为 (");
            push_decimal(&mut text, width as i64);
            text.append(", ");
            push_decimal(&mut text, height as i64);
            text.append(") -> 事件对象：");
            let mut debug = String::from_str("Resize { width: ");
            push_decimal(&mut debug, width as i64);
            debug.append(", height: ");
            push_decimal(&mut debug, height as i64);
            debug.append(" }");
            text.append(debug.as_str());
            text
        },
    }
}

} // verus!

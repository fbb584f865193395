//! Plain records and tagged unions, and the few operations they carry.

use vstd::prelude::*;
use crate::text::{decimal, push_decimal};

verus! {

/// A point of the plane. Copies are independent of one another.
#[derive(Debug, Clone, Copy)]
pub struct Point {
    pub x: i32,
    pub y: i32,
}

impl Point {
    /// The point with the given coordinates.
    pub fn new(x: i32, y: i32) -> (p: Point)
        ensures
            p.x == x,
            p.y == y,
    {
        Point { x, y }
    }
}

/// A person.
#[derive(Debug, Clone)]
pub struct Person {
    pub name: String,
    pub age: u32,
}

/// Settings. By default the port is 0 and debugging is off.
pub struct Config {
    pub port: u16,
    pub debug: bool,
}

impl Default for Config {
    fn default() -> (config: Config)
        ensures
            config.port == 0,
            !config.debug,
    {
        Config { port: 0, debug: false }
    }
}

/// Two values of one type.
pub struct Pair<T> {
    pub first: T,
    pub second: T,
}

/// A point whose coordinates live elsewhere: moving the point moves them.
pub struct RefPoint<'a> {
    pub x: &'a mut i32,
    pub y: &'a mut i32,
}

impl<'a> RefPoint<'a> {
    /// The point on the two given coordinates.
    pub fn new(x: &'a mut i32, y: &'a mut i32) -> (p: Self)
        ensures
            *p.x == *old(x),
            *p.y == *old(y),
            *final(x) == *final(p.x),
            *final(y) == *final(p.y),
    {
        RefPoint { x, y }
    }

    /// Moves the point by the given amounts.
    pub fn move_by(&mut self, dx: i32, dy: i32)
        requires
            i32::MIN <= *old(self).x + dx <= i32::MAX,
            i32::MIN <= *old(self).y + dy <= i32::MAX,
        ensures
            *final(self).x == *old(self).x + dx,
            *final(self).y == *old(self).y + dy,
    {
        *self.x = *self.x + dx;
        *self.y = *self.y + dy;
    }
}

/// One of the four directions.
pub enum Direction {
    Up,
    Down,
    Left,
    Right,
}

/// An instruction to a game.
#[derive(Debug)]
pub enum Message {
    /// Leave the game.
    Quit,
    /// Go to a position.
    Move { x: i32, y: i32 },
    /// Write a text.
    Write(String),
    /// Change the colour to the given red, green and blue.
    ChangeColor(i32, i32, i32),
}

/// What carrying out a message is reported as.
pub open spec fn process_text(message: Message) -> Seq<char> {
    match message {
        Message::Quit => "退出游戏"@,
        Message::Move { x, y } => "移动到坐标 ("@ + decimal(x as int) + ", "@ + decimal(y as int)
            + ")"@,
        Message::Write(text) => "写入文本："@ + text@,
        Message::ChangeColor(r, g, b) => "颜色：("@ + decimal(r as int) + ", "@ + decimal(
            g as int,
        ) + ", "@ + decimal(b as int) + ")"@,
    }
}

impl Message {
    /// Reports what the message asks for.
    pub fn process(&self) -> (text: String)
        ensures
            text@ == process_text(*self),
    {
        match self {
            Message::Quit => String::from_str("退出游戏"),
            Message::Move { x, y } => {
                let mut text = String::from_str("移动到坐标 (");
                push_decimal(&mut text, *x as i64);
                text.append(", ");
                push_decimal(&mut text, *y as i64);
                text.append(")");
                text
            },
            Message::Write(content) => {
                let mut text = String::from_str("写入文本：");
                text.append(content.as_str());
                text
            },
            Message::ChangeColor(r, g, b) => {
                let mut text = String::from_str("颜色：(");
                push_decimal(&mut text, *r as i64);
                text.append(", ");
                push_decimal(&mut text, *g as i64);
                text.append(", ");
                push_decimal(&mut text, *b as i64);
                text.append(")");
                text
            },
        }
    }
}

/// An address of the internet protocol, version 4 or 6.
#[derive(Debug)]
pub enum IpAddr {
    V4(u8, u8, u8, u8),
    V6(String),
}

/// An address as it is shown: the loopback address of version 4 by name,
/// any other by its parts.
pub open spec fn address_text(address: IpAddr) -> Seq<char> {
    match address {
        IpAddr::V4(a, b, c, d) => if a == 127 && b == 0 && c == 0 && d == 1 {
            "本地环回地址：V4(127, 0, 0, 1)"@
        } else {
            "IPv4: "@ + decimal(a as int) + "."@ + decimal(b as int) + "."@ + decimal(c as int)
                + "."@ + decimal(d as int)
        },
        IpAddr::V6(addr) => "IPv6: "@ + addr@,
    }
}

impl IpAddr {
    /// The address as it is shown.
    pub fn to_string(&self) -> (text: String)
        ensures
            text@ == address_text(*self),
    {
        match self {
            IpAddr::V4(127, 0, 0, 1) => String::from_str("本地环回地址：V4(127, 0, 0, 1)"),
            IpAddr::V4(a, b, c, d) => {
                let mut text = String::from_str("IPv4: ");
                push_decimal(&mut text, *a as i64);
                text.append(".");
                push_decimal(&mut text, *b as i64);
                text.append(".");
                push_decimal(&mut text, *c as i64);
                text.append(".");
                push_decimal(&mut text, *d as i64);
                text
            },
            IpAddr::V6(addr) => {
                let mut text = String::from_str("IPv6: ");
                text.append(addr.as_str());
                text
            },
        }
    }
}

} // verus!

//! The ways a start or stop request can fail, and the text shown for each.

use vstd::prelude::*;
use vstd::string::*;

verus! {

/// Why a start or stop request was turned down.
#[derive(Clone, Debug, PartialEq, Eq)]
pub enum ListenerError {
    /// A start was requested while a listener is believed to be running.
    AlreadyRunning,
    /// The socket could not be bound; holds the system's description.
    BindFailed(String),
    /// The bound socket could not be made non-blocking; holds the system's description.
    ConfigFailed(String),
    /// A stop was requested while no listener is running.
    NotRunning,
    /// The stop signal found nobody to receive it: the task had already ended.
    SignalDeliveryFailed,
}

impl ListenerError {
    /// The text that `message` produces.
    pub open spec fn message_text(self) -> Seq<char> {
        match self {
            ListenerError::AlreadyRunning => "UDP 监听器已在运行。请先停止它。"@,
            ListenerError::BindFailed(detail) => "绑定 UDP 套接字失败: "@ + detail@,
            ListenerError::ConfigFailed(detail) => "设置 UDP 套接字为非阻塞模式失败: "@ + detail@,
            ListenerError::NotRunning => "UDP 监听器未在运行。"@,
            ListenerError::SignalDeliveryFailed => "发送停止信号失败。监听器可能已经停止。"@,
        }
    }

    /// The description handed to the caller in place of the error value.
    pub fn message(&self) -> (text: String)
        ensures
            text@ == self.message_text(),
    {
        match self {
            ListenerError::AlreadyRunning => String::from_str("UDP 监听器已在运行。请先停止它。"),
            ListenerError::BindFailed(detail) => {
                String::from_str("绑定 UDP 套接字失败: ").concat(detail.as_str())
            },
            ListenerError::ConfigFailed(detail) => {
                String::from_str("设置 UDP 套接字为非阻塞模式失败: ").concat(detail.as_str())
            },
            ListenerError::NotRunning => String::from_str("UDP 监听器未在运行。"),
            ListenerError::SignalDeliveryFailed => {
                String::from_str("发送停止信号失败。监听器可能已经停止。")
            },
        }
    }
}

} // verus!

//! Records of the messages that the driver's debug output reports.

use vstd::prelude::*;
use crate::consts;

verus! {

/// The part of the system that a debug message comes from.
#[derive(Debug, Clone, Copy, PartialEq, Eq, Hash, Structural)]
pub enum Source {
    Api,
    WindowSystem,
    ShaderCompiler,
    ThirdParty,
    Application,
    Other,
}

impl Source {
    /// The enumerant that the driver takes for this value.
    pub open spec fn spec_gl_value(self) -> u32 {
        match self {
            Source::Api => consts::DEBUG_SOURCE_API,
            Source::WindowSystem => consts::DEBUG_SOURCE_WINDOW_SYSTEM,
            Source::ShaderCompiler => consts::DEBUG_SOURCE_SHADER_COMPILER,
            Source::ThirdParty => consts::DEBUG_SOURCE_THIRD_PARTY,
            Source::Application => consts::DEBUG_SOURCE_APPLICATION,
            Source::Other => consts::DEBUG_SOURCE_OTHER,
        }
    }

    #[verifier::when_used_as_spec(spec_gl_value)]
    pub fn gl_value(self) -> (r: u32)
        ensures
            r == self.spec_gl_value(),
    {
        match self {
            Source::Api => consts::DEBUG_SOURCE_API,
            Source::WindowSystem => consts::DEBUG_SOURCE_WINDOW_SYSTEM,
            Source::ShaderCompiler => consts::DEBUG_SOURCE_SHADER_COMPILER,
            Source::ThirdParty => consts::DEBUG_SOURCE_THIRD_PARTY,
            Source::Application => consts::DEBUG_SOURCE_APPLICATION,
            Source::Other => consts::DEBUG_SOURCE_OTHER,
        }
    }

    /// Reads an enumerant handed over by the driver; `None` when no value of
    /// this type has it.
    pub fn from_gl_value(v: u32) -> (r: Option<Self>)
        ensures
            match r {
                Some(e) => e.gl_value() == v,
                None => forall|e: Self| #[trigger] e.gl_value() != v,
            },
    {
        if v == consts::DEBUG_SOURCE_API {
            Some(Source::Api)
        } else if v == consts::DEBUG_SOURCE_WINDOW_SYSTEM {
            Some(Source::WindowSystem)
        } else if v == consts::DEBUG_SOURCE_SHADER_COMPILER {
            Some(Source::ShaderCompiler)
        } else if v == consts::DEBUG_SOURCE_THIRD_PARTY {
            Some(Source::ThirdParty)
        } else if v == consts::DEBUG_SOURCE_APPLICATION {
            Some(Source::Application)
        } else if v == consts::DEBUG_SOURCE_OTHER {
            Some(Source::Other)
        } else {
            proof {
                assert forall|e: Self| #[trigger] e.gl_value() != v by {
                    match e {
                        Source::Api => {},
                        Source::WindowSystem => {},
                        Source::ShaderCompiler => {},
                        Source::ThirdParty => {},
                        Source::Application => {},
                        Source::Other => {},
                    }
                }
            }
            None
        }
    }

    /// Distinct values of this type have distinct enumerants, so reading one
    /// back gives the value that was written.
    pub proof fn lemma_gl_value_injective(a: Self, b: Self)
        ensures
            a.gl_value() == b.gl_value() ==> a == b,
    {
    }
}

/// What a debug message is about.
#[derive(Debug, Clone, Copy, PartialEq, Eq, Hash, Structural)]
pub enum MessageType {
    Error,
    DeprecatedBehavior,
    UndefinedBehavior,
    Portability,
    Performance,
    Marker,
    PushGroup,
    PopGroup,
    Other,
}

impl MessageType {
    /// The enumerant that the driver takes for this value.
    pub open spec fn spec_gl_value(self) -> u32 {
        match self {
            MessageType::Error => consts::DEBUG_TYPE_ERROR,
            MessageType::DeprecatedBehavior => consts::DEBUG_TYPE_DEPRECATED_BEHAVIOR,
            MessageType::UndefinedBehavior => consts::DEBUG_TYPE_UNDEFINED_BEHAVIOR,
            MessageType::Portability => consts::DEBUG_TYPE_PORTABILITY,
            MessageType::Performance => consts::DEBUG_TYPE_PERFORMANCE,
            MessageType::Marker => consts::DEBUG_TYPE_MARKER,
            MessageType::PushGroup => consts::DEBUG_TYPE_PUSH_GROUP,
            MessageType::PopGroup => consts::DEBUG_TYPE_POP_GROUP,
            MessageType::Other => consts::DEBUG_TYPE_OTHER,
        }
    }

    #[verifier::when_used_as_spec(spec_gl_value)]
    pub fn gl_value(self) -> (r: u32)
        ensures
            r == self.spec_gl_value(),
    {
        match self {
            MessageType::Error => consts::DEBUG_TYPE_ERROR,
            MessageType::DeprecatedBehavior => consts::DEBUG_TYPE_DEPRECATED_BEHAVIOR,
            MessageType::UndefinedBehavior => consts::DEBUG_TYPE_UNDEFINED_BEHAVIOR,
            MessageType::Portability => consts::DEBUG_TYPE_PORTABILITY,
            MessageType::Performance => consts::DEBUG_TYPE_PERFORMANCE,
            MessageType::Marker => consts::DEBUG_TYPE_MARKER,
            MessageType::PushGroup => consts::DEBUG_TYPE_PUSH_GROUP,
            MessageType::PopGroup => consts::DEBUG_TYPE_POP_GROUP,
            MessageType::Other => consts::DEBUG_TYPE_OTHER,
        }
    }

    /// Reads an enumerant handed over by the driver; `None` when no value of
    /// this type has it.
    pub fn from_gl_value(v: u32) -> (r: Option<Self>)
        ensures
            match r {
                Some(e) => e.gl_value() == v,
                None => forall|e: Self| #[trigger] e.gl_value() != v,
            },
    {
        if v == consts::DEBUG_TYPE_ERROR {
            Some(MessageType::Error)
        } else if v == consts::DEBUG_TYPE_DEPRECATED_BEHAVIOR {
            Some(MessageType::DeprecatedBehavior)
        } else if v == consts::DEBUG_TYPE_UNDEFINED_BEHAVIOR {
            Some(MessageType::UndefinedBehavior)
        } else if v == consts::DEBUG_TYPE_PORTABILITY {
            Some(MessageType::Portability)
        } else if v == consts::DEBUG_TYPE_PERFORMANCE {
            Some(MessageType::Performance)
        } else if v == consts::DEBUG_TYPE_MARKER {
            Some(MessageType::Marker)
        } else if v == consts::DEBUG_TYPE_PUSH_GROUP {
            Some(MessageType::PushGroup)
        } else if v == consts::DEBUG_TYPE_POP_GROUP {
            Some(MessageType::PopGroup)
        } else if v == consts::DEBUG_TYPE_OTHER {
            Some(MessageType::Other)
        } else {
            proof {
                assert forall|e: Self| #[trigger] e.gl_value() != v by {
                    match e {
                        MessageType::Error => {},
                        MessageType::DeprecatedBehavior => {},
                        MessageType::UndefinedBehavior => {},
                        MessageType::Portability => {},
                        MessageType::Performance => {},
                        MessageType::Marker => {},
                        MessageType::PushGroup => {},
                        MessageType::PopGroup => {},
                        MessageType::Other => {},
                    }
                }
            }
            None
        }
    }

    /// Distinct values of this type have distinct enumerants, so reading one
    /// back gives the value that was written.
    pub proof fn lemma_gl_value_injective(a: Self, b: Self)
        ensures
            a.gl_value() == b.gl_value() ==> a == b,
    {
    }
}

/// How serious the event is that a debug message reports.
#[derive(Debug, Clone, Copy, PartialEq, Eq, Hash, Structural)]
pub enum Severity {
    Notification,
    Low,
    Medium,
    High,
}

impl Severity {
    /// The enumerant that the driver takes for this value.
    pub open spec fn spec_gl_value(self) -> u32 {
        match self {
            Severity::Notification => consts::DEBUG_SEVERITY_NOTIFICATION,
            Severity::Low => consts::DEBUG_SEVERITY_LOW,
            Severity::Medium => consts::DEBUG_SEVERITY_MEDIUM,
            Severity::High => consts::DEBUG_SEVERITY_HIGH,
        }
    }

    #[verifier::when_used_as_spec(spec_gl_value)]
    pub fn gl_value(self) -> (r: u32)
        ensures
            r == self.spec_gl_value(),
    {
        match self {
            Severity::Notification => consts::DEBUG_SEVERITY_NOTIFICATION,
            Severity::Low => consts::DEBUG_SEVERITY_LOW,
            Severity::Medium => consts::DEBUG_SEVERITY_MEDIUM,
            Severity::High => consts::DEBUG_SEVERITY_HIGH,
        }
    }

    /// Reads an enumerant handed over by the driver; `None` when no value of
    /// this type has it.
    pub fn from_gl_value(v: u32) -> (r: Option<Self>)
        ensures
            match r {
                Some(e) => e.gl_value() == v,
                None => forall|e: Self| #[trigger] e.gl_value() != v,
            },
    {
        if v == consts::DEBUG_SEVERITY_NOTIFICATION {
            Some(Severity::Notification)
        } else if v == consts::DEBUG_SEVERITY_LOW {
            Some(Severity::Low)
        } else if v == consts::DEBUG_SEVERITY_MEDIUM {
            Some(Severity::Medium)
        } else if v == consts::DEBUG_SEVERITY_HIGH {
            Some(Severity::High)
        } else {
            proof {
                assert forall|e: Self| #[trigger] e.gl_value() != v by {
                    match e {
                        Severity::Notification => {},
                        Severity::Low => {},
                        Severity::Medium => {},
                        Severity::High => {},
                    }
                }
            }
            None
        }
    }

    /// Distinct values of this type have distinct enumerants, so reading one
    /// back gives the value that was written.
    pub proof fn lemma_gl_value_injective(a: Self, b: Self)
        ensures
            a.gl_value() == b.gl_value() ==> a == b,
    {
    }
}

/// What the driver says of one debug message, besides its text.
#[derive(Debug, Clone, Copy, PartialEq, Eq, Structural)]
pub struct DebugCallbackInfo {
    pub source: Source,
    pub message_type: MessageType,
    pub severity: Severity,
    pub id: u32,
}

impl DebugCallbackInfo {
    /// Builds the record from the raw arguments of the driver's debug callback.
    /// `None` when the source, the type or the severity is no enumerant of its kind.
    pub fn from_raw(source: u32, message_type: u32, id: u32, severity: u32) -> (r: Option<
        DebugCallbackInfo,
    >)
        ensures
            match r {
                Some(info) => {
                    &&& info.source.gl_value() == source
                    &&& info.message_type.gl_value() == message_type
                    &&& info.severity.gl_value() == severity
                    &&& info.id == id
                },
                None => {
                    ||| forall|s: Source| #[trigger] s.gl_value() != source
                    ||| forall|t: MessageType| #[trigger] t.gl_value() != message_type
                    ||| forall|v: Severity| #[trigger] v.gl_value() != severity
                },
            },
    {
        let source = match Source::from_gl_value(source) {
            Some(s) => s,
            None => return None,
        };
        let message_type = match MessageType::from_gl_value(message_type) {
            Some(t) => t,
            None => return None,
        };
        let severity = match Severity::from_gl_value(severity) {
            Some(v) => v,
            None => return None,
        };
        Some(DebugCallbackInfo { source, message_type, severity, id })
    }
}


} // verus!

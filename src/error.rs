use vstd::prelude::*;

verus! {

/// Every way a request to the worker can fail.
#[derive(Debug)]
pub enum PlaywrightError {
    /// The process could not be spawned, or a pipe to it failed; carries the OS message.
    SpawnError(String),
    /// The worker reported a failure; carries its message.
    ResponseError(String),
    /// A line from the worker, or a request to it, could not be read or written as JSON.
    JsonError(String),
    /// No worker process is running.
    NotRunning,
    /// No candidate location holds the worker script.
    ScriptNotFound,
    /// No candidate location holds the runtime executable.
    NodeNotFound,
    /// The first line of a freshly spawned worker was not `{"ready": true}`.
    HandshakeFailure,
    /// Every request id has been used.
    IdsExhausted,
}

impl PlaywrightError {
    /// The text shown to the user for this error.
    pub open spec fn message_spec(&self) -> Seq<char> {
        match self {
            PlaywrightError::SpawnError(m) => "워커 시작 실패: "@ + m@,
            PlaywrightError::ResponseError(m) => "워커 응답 오류: "@ + m@,
            PlaywrightError::JsonError(m) => "JSON 파싱 오류: "@ + m@,
            PlaywrightError::NotRunning => "워커가 실행중이 아닙니다"@,
            PlaywrightError::ScriptNotFound => "스크립트를 찾을 수 없습니다"@,
            PlaywrightError::NodeNotFound => "Node.js를 찾을 수 없습니다"@,
            PlaywrightError::HandshakeFailure => "워커 준비 실패"@,
            PlaywrightError::IdsExhausted => "요청 ID가 모두 소진되었습니다"@,
        }
    }

    pub fn message(&self) -> (r: String)
        ensures
            r@ == self.message_spec(),
    {
        match self {
            PlaywrightError::SpawnError(m) => String::from_str("워커 시작 실패: ").concat(m.as_str()),
            PlaywrightError::ResponseError(m) => String::from_str("워커 응답 오류: ").concat(m.as_str()),
            PlaywrightError::JsonError(m) => String::from_str("JSON 파싱 오류: ").concat(m.as_str()),
            PlaywrightError::NotRunning => String::from_str("워커가 실행중이 아닙니다"),
            PlaywrightError::ScriptNotFound => String::from_str("스크립트를 찾을 수 없습니다"),
            PlaywrightError::NodeNotFound => String::from_str("Node.js를 찾을 수 없습니다"),
            PlaywrightError::HandshakeFailure => String::from_str("워커 준비 실패"),
            PlaywrightError::IdsExhausted => String::from_str("요청 ID가 모두 소진되었습니다"),
        }
    }
}

} // verus!

use std::cell::Cell;

use airap::audio::Audio;
use airap::error::{AirapError, AirapErrorKind};

struct Ramp {
    updates: usize,
}

impl Audio for Ramp {
    fn on_update<F: Fn(&[i32])>(&mut self, cb: F) -> Result<(), AirapError> {
        if self.updates == 0 {
            return Err(AirapError::audio("no sources found"));
        }
        for update in 0..self.updates {
            cb(&[update as i32, update as i32 + 1]);
        }
        Ok(())
    }
}

#[test]
fn a_source_calls_back_with_each_update() {
    let seen = Cell::new(0);
    let sum = Cell::new(0);
    let mut source = Ramp { updates: 3 };
    let result = source.on_update(|samples| {
        seen.set(seen.get() + 1);
        sum.set(sum.get() + samples[0] + samples[1]);
    });
    assert!(result.is_ok());
    assert_eq!(seen.get(), 3);
    assert_eq!(sum.get(), 9);
}

#[test]
fn a_source_can_fail() {
    let mut source = Ramp { updates: 0 };
    let error = source.on_update(|_| {}).unwrap_err();
    assert_eq!(error.kind, AirapErrorKind::Audio);
}

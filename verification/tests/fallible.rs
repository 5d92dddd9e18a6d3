use solid_patterns::pipeline::content::EditorContent;
use solid_patterns::pipeline::fallible::{Always, MaxLength, TryProcessing, TryProcessor};
use solid_patterns::pipeline::steps::{AppendMarker, LowerCase, SpellChecker};

type TextStep = dyn TryProcessing<Context = EditorContent>;

fn marker(text: &str) -> Always<AppendMarker> {
    Always(AppendMarker {
        marker: text.to_string(),
    })
}

#[test]
fn second_of_three_steps_fails() {
    let mut processor: TryProcessor<TextStep> = TryProcessor::new();
    processor.register_processing(Box::new(marker("1")));
    processor.register_processing(Box::new(MaxLength { limit: 3 }));
    processor.register_processing(Box::new(marker("3")));
    let mut context = EditorContent::new("abc");
    let failure = processor.run(&mut context).unwrap_err();
    assert_eq!(failure.step, "MaxLength");
    assert_eq!(failure.reason, "text too long");
    assert_eq!(context.content, "abc1");
}

#[test]
fn all_steps_run_when_none_refuses() {
    let mut processor: TryProcessor<TextStep> = TryProcessor::new();
    processor.register_processing(Box::new(Always(LowerCase)));
    processor.register_processing(Box::new(MaxLength { limit: 100 }));
    processor.register_processing(Box::new(Always(SpellChecker)));
    let mut context = EditorContent::new("HELLO");
    assert!(processor.run(&mut context).is_ok());
    assert_eq!(context.content, "hello\n[LowerCase OK]\n[SpellChecker OK]");
}

#[test]
fn first_step_fails_and_nothing_is_applied() {
    let mut processor: TryProcessor<TextStep> = TryProcessor::new();
    processor.register_processing(Box::new(MaxLength { limit: 0 }));
    processor.register_processing(Box::new(marker("never")));
    let mut context = EditorContent::new("x");
    let failure = processor.run(&mut context).unwrap_err();
    assert_eq!(failure.step, "MaxLength");
    assert_eq!(context.content, "x");
}

#[test]
fn failing_run_can_be_repeated() {
    let mut processor: TryProcessor<TextStep> = TryProcessor::new();
    processor.register_processing(Box::new(marker("+")));
    processor.register_processing(Box::new(MaxLength { limit: 2 }));
    let mut short = EditorContent::new("a");
    assert!(processor.run(&mut short).is_ok());
    assert_eq!(short.content, "a+");
    assert!(processor.run(&mut short).is_err());
    assert_eq!(short.content, "a++");
    let mut other = EditorContent::new("a");
    assert!(processor.run(&mut other).is_ok());
    assert_eq!(other.content, "a+");
}

#[test]
fn empty_fallible_processor_is_a_no_op() {
    let mut processor: TryProcessor<TextStep> = TryProcessor::new();
    let mut context = EditorContent::new("same");
    assert!(processor.run(&mut context).is_ok());
    assert_eq!(context.content, "same");
}

#[test]
fn max_length_counts_characters() {
    let mut step = MaxLength { limit: 2 };
    assert_eq!(step.name(), "MaxLength");
    let mut context = EditorContent::new("éé");
    assert!(step.try_apply(&mut context).is_ok());
    assert_eq!(context.content, "éé");
    let mut context = EditorContent::new("ééé");
    assert_eq!(
        step.try_apply(&mut context),
        Err("text too long".to_string())
    );
    assert_eq!(context.content, "ééé");
    assert_eq!(marker("m").name(), "AppendMarker");
}

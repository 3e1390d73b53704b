//! The fixed stylesheet template and the two colours substituted into it.
use vstd::prelude::*;

verus! {

/// Opening of the stylesheet, up to the background colour.
pub const STYLE_0: &'static str = r#"
/* Futuristic Aurora Glass Cards Theme */
window {
    background-color: transparent;
    font-family: sans-serif;
}

/* Semi-transparent background for glow effects and compositor blur */
.departure-background {
    background: "#;

/// From the background colour to the button text colour.
pub const STYLE_1: &'static str = r#";
}

/* Glassmorphic card buttons with enhanced glow */
.departure-button {
    background: rgba(255, 255, 255, 0.08);
    border: 2px solid rgba(0, 245, 255, 0.3);
    border-radius: 16px;
    color: "#;

/// From the button text colour to the label text colour.
pub const STYLE_2: &'static str = r#";
    font-weight: 700;
    font-size: 11px;
    letter-spacing: 1px;
    text-transform: uppercase;
    box-shadow: 
        0 15px 35px rgba(0, 0, 0, 0.4),
        0 5px 15px rgba(0, 0, 0, 0.3),
        0 0 20px rgba(0, 245, 255, 0.2),
        0 0 40px rgba(0, 245, 255, 0.1),
        inset 0 1px 0 rgba(255, 255, 255, 0.2);
    transition: all 300ms ease;
    padding: 16px;
    opacity: 0.85;
}

/* Hover effects with enhanced glow */
.departure-button:hover {
    background: rgba(255, 255, 255, 0.15);
    border-color: rgba(0, 245, 255, 0.6);
    box-shadow: 
        0 20px 40px rgba(0, 0, 0, 0.5),
        0 8px 25px rgba(0, 245, 255, 0.3),
        0 0 30px rgba(0, 245, 255, 0.4),
        0 0 60px rgba(0, 245, 255, 0.2),
        0 0 100px rgba(0, 245, 255, 0.1),
        inset 0 1px 0 rgba(255, 255, 255, 0.3);
    opacity: 1.0;
    transform: translateY(-2px);
}

/* Active state */
.departure-button:active {
    transform: translateY(0px);
    opacity: 0.8;
}

/* Danger variant */
.departure-button.danger {
    border-color: rgba(255, 107, 107, 0.4);
}

.departure-button.danger:hover {
    border-color: rgba(255, 107, 107, 0.7);
    box-shadow: 
        0 20px 40px rgba(0, 0, 0, 0.5),
        0 8px 25px rgba(255, 107, 107, 0.4),
        inset 0 1px 0 rgba(255, 255, 255, 0.3);
}

/* Button text styling */
.departure-button-text {
    font-size: 10px;
    font-weight: 700;
    color: "#;

/// From the label text colour to the fallback glyph colour.
pub const STYLE_3: &'static str = r#";
    text-shadow: 0 1px 3px rgba(0, 0, 0, 0.7);
    opacity: 0.9;
}

.departure-button:hover .departure-button-text {
    opacity: 1;
}

/* Fallback text styling */
.departure-button-fallback {
    font-size: 36px;
    font-weight: 900;
    color: "#;

/// From the fallback glyph colour to the dialog text colour.
pub const STYLE_4: &'static str = r#";
    text-shadow: 0 2px 8px rgba(0, 0, 0, 0.5);
}

/* Confirmation dialog */
.departure-confirmation {
    background: rgba(0, 0, 0, 0.9);
    color: "#;

/// From the dialog text colour to the dialog button text colour.
pub const STYLE_5: &'static str = r#";
    border: 2px solid rgba(0, 245, 255, 0.4);
    border-radius: 16px;
    box-shadow: 0 20px 50px rgba(0, 0, 0, 0.7);
    padding: 24px;
}

.departure-confirmation button {
    background: rgba(255, 255, 255, 0.1);
    color: "#;

/// Rest of the stylesheet after the dialog button text colour.
pub const STYLE_6: &'static str = r#";
    border: 1px solid rgba(255, 255, 255, 0.3);
    border-radius: 8px;
    padding: 12px 20px;
    margin: 8px;
    font-weight: 600;
}

.departure-confirmation button:hover {
    background: rgba(255, 255, 255, 0.2);
    border-color: rgba(0, 245, 255, 0.5);
}

.departure-confirmation button.danger {
    border-color: rgba(255, 107, 107, 0.5);
}

.departure-confirmation button.danger:hover {
    border-color: rgba(255, 107, 107, 0.8);
}

/* Simple animations */
@keyframes slideIn {
    from { 
        opacity: 0; 
        transform: translateY(20px);
    }
    to { 
        opacity: 1; 
        transform: translateY(0);
    }
}

/* Apply animations */
.departure-button {
    animation: slideIn 400ms ease-out;
}

/* Staggered animation delays */
.departure-button:nth-child(1) { animation-delay: 0ms; }
.departure-button:nth-child(2) { animation-delay: 80ms; }
.departure-button:nth-child(3) { animation-delay: 160ms; }
.departure-button:nth-child(4) { animation-delay: 240ms; }
.departure-button:nth-child(5) { animation-delay: 320ms; }
"#;

/// The stylesheet for a text colour and a background colour.
pub open spec fn stylesheet(text: Seq<char>, background: Seq<char>) -> Seq<char> {
    STYLE_0@ + background + STYLE_1@ + text + STYLE_2@ + text + STYLE_3@ + text + STYLE_4@ + text
        + STYLE_5@ + text + STYLE_6@
}

} // verus!
